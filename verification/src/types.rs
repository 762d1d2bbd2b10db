//! Typed BibLaTeX field values and their textual renderings.
//!
//! Every value type has a spec-level rendering (`*_text`) used by the entry
//! renderer's contracts.  Literal text and person names pass through the
//! escaper and can therefore fail on unsupported characters; the other value
//! types always render.

use vstd::prelude::*;

use crate::escape::{escape_failure, escape_str, escaped_text, EscapeError};
use crate::text::{dec_int, push_i32_decimal, push_str_chars, str_of};

verus! {

/// Integer field values (years, months, page numbers) are 32-bit signed.
pub type Int = i32;

/// A calendar date: a year with an optional month and day.
///
/// Well-formed dates never carry a day without a month; the constructors
/// below are the only ways the rest of the crate builds one.
#[derive(Clone, Copy, Debug, PartialEq, Eq, Structural)]
pub struct Date {
    pub year: Int,
    pub month: Option<Int>,
    pub day: Option<Int>,
}

impl Date {
    /// A day is only ever given together with a month.
    pub open spec fn well_formed(self) -> bool {
        self.day is Some ==> self.month is Some
    }

    pub fn year(year: Int) -> (d: Date)
        ensures
            d == (Date { year, month: None, day: None }),
    {
        Date { year, month: None, day: None }
    }

    pub fn year_month(year: Int, month: Int) -> (d: Date)
        ensures
            d == (Date { year, month: Some(month), day: None }),
    {
        Date { year, month: Some(month), day: None }
    }

    pub fn full(year: Int, month: Int, day: Int) -> (d: Date)
        ensures
            d == (Date { year, month: Some(month), day: Some(day) }),
    {
        Date { year, month: Some(month), day: Some(day) }
    }
}

/// A date renders as `year`, `year-month` or `year-month-day`; a day is
/// printed only when a month is.
pub open spec fn date_text(d: Date) -> Seq<char> {
    dec_int(d.year as int) + match d.month {
        None => Seq::<char>::empty(),
        Some(m) => seq!['-'] + dec_int(m as int) + match d.day {
            None => Seq::<char>::empty(),
            Some(dd) => seq!['-'] + dec_int(dd as int),
        },
    }
}

/// Append the rendering of a date to `out`.
pub fn push_date(out: &mut Vec<char>, d: &Date)
    ensures
        final(out)@ == old(out)@ + date_text(*d),
{
    push_i32_decimal(out, d.year);
    match d.month {
        None => {},
        Some(m) => {
            out.push('-');
            push_i32_decimal(out, m);
            match d.day {
                None => {},
                Some(dd) => {
                    out.push('-');
                    push_i32_decimal(out, dd);
                },
            }
        },
    }
    assert(out@ =~= old(out)@ + date_text(*d));
}

/// The publication state of a manuscript.
#[derive(Clone, Copy, Debug, PartialEq, Eq, Structural)]
pub enum PubState {
    /// The manuscript is being prepared for publication.
    InPreparation,
    /// The manuscript has been submitted to a journal or conference.
    Submitted,
    /// The manuscript has been accepted by a press or journal.
    Forthcoming,
    /// The manuscript is fully copyedited and in the final stages of the
    /// production process.
    InPress,
    /// The manuscript is published in a preliminary form or location, such
    /// as an online version in advance of print publication.
    Prepublished,
}

/// The fixed display string of each publication state.
pub open spec fn pubstate_text(p: PubState) -> Seq<char> {
    match p {
        PubState::InPreparation => "in preperation"@,
        PubState::Submitted => "submitted"@,
        PubState::Forthcoming => "forthcoming"@,
        PubState::InPress => "in press"@,
        PubState::Prepublished => "pre-published"@,
    }
}

/// Append the display string of a publication state to `out`.
pub fn push_pubstate(out: &mut Vec<char>, p: &PubState)
    ensures
        final(out)@ == old(out)@ + pubstate_text(*p),
{
    match p {
        PubState::InPreparation => push_str_chars(out, "in preperation"),
        PubState::Submitted => push_str_chars(out, "submitted"),
        PubState::Forthcoming => push_str_chars(out, "forthcoming"),
        PubState::InPress => push_str_chars(out, "in press"),
        PubState::Prepublished => push_str_chars(out, "pre-published"),
    }
}

/// Free text, escaped by the TeX escaper when rendered.
#[derive(Debug, Clone)]
pub struct Literal(pub String);

impl View for Literal {
    type V = Seq<char>;

    open spec fn view(&self) -> Seq<char> {
        self.0@
    }
}

/// Text copied into the output unchanged; the caller guarantees TeX safety.
#[derive(Debug, Clone)]
pub struct Verbatim(pub String);

impl View for Verbatim {
    type V = Seq<char>;

    open spec fn view(&self) -> Seq<char> {
        self.0@
    }
}

/// A URI, copied into the output unchanged.
#[derive(Debug, Clone)]
pub struct Uri(pub String);

impl View for Uri {
    type V = Seq<char>;

    open spec fn view(&self) -> Seq<char> {
        self.0@
    }
}

/// A single page number, or an inclusive page range whose end may be open.
#[derive(Debug, Clone, Copy, PartialEq, Eq, Structural)]
pub enum Range {
    Single(Int),
    Multi { start: Int, end: Option<Int> },
}

/// A range renders as `n`, `start-end`, or `start-` when open-ended.
pub open spec fn range_text(r: Range) -> Seq<char> {
    match r {
        Range::Single(i) => dec_int(i as int),
        Range::Multi { start, end: Some(e) } => dec_int(start as int) + seq!['-'] + dec_int(
            e as int,
        ),
        Range::Multi { start, end: None } => dec_int(start as int) + seq!['-'],
    }
}

/// Append the rendering of a page range to `out`.
pub fn push_range(out: &mut Vec<char>, r: &Range)
    ensures
        final(out)@ == old(out)@ + range_text(*r),
{
    match r {
        Range::Single(i) => {
            push_i32_decimal(out, *i);
        },
        Range::Multi { start, end } => {
            push_i32_decimal(out, *start);
            out.push('-');
            match end {
                Some(e) => {
                    push_i32_decimal(out, *e);
                },
                None => {},
            }
        },
    }
    assert(out@ =~= old(out)@ + range_text(*r));
}

/// The name parts of one person, as spec values.
pub struct NameV {
    pub given: Seq<char>,
    pub family: Seq<char>,
}

/// A person's name, rendered `Family, Given` with both parts escaped.
#[derive(Debug, Clone)]
pub struct Name {
    given: String,
    family: String,
}

impl View for Name {
    type V = NameV;

    closed spec fn view(&self) -> NameV {
        NameV { given: self.given@, family: self.family@ }
    }
}

impl Name {
    pub fn new(given: String, family: String) -> (n: Name)
        ensures
            n@ == (NameV { given: given@, family: family@ }),
    {
        Name { given, family }
    }
}

/// The escaped rendering of one name: family first.
pub open spec fn name_text(n: NameV) -> Seq<char> {
    escaped_text(n.family) + ", "@ + escaped_text(n.given)
}

/// The first escaping failure in a name, family part first.
pub open spec fn name_err(n: NameV) -> Option<EscapeError> {
    if escape_failure(n.family) is Some {
        escape_failure(n.family)
    } else {
        escape_failure(n.given)
    }
}

/// Append the rendering of a name to `out`; on failure `out` is unchanged.
pub fn push_name(out: &mut Vec<char>, n: &Name) -> (r: Result<(), EscapeError>)
    ensures
        match r {
            Ok(_) => name_err(n@) is None && final(out)@ == old(out)@ + name_text(n@),
            Err(e) => name_err(n@) == Some(e) && final(out)@ == old(out)@,
        },
{
    let family = match escape_str(str_of(&n.family)) {
        Ok(v) => v,
        Err(e) => {
            return Err(e);
        },
    };
    let given = match escape_str(str_of(&n.given)) {
        Ok(v) => v,
        Err(e) => {
            return Err(e);
        },
    };
    let mut t = family;
    push_str_chars(&mut t, ", ");
    let mut given = given;
    t.append(&mut given);
    out.append(&mut t);
    assert(out@ =~= old(out)@ + name_text(n@));
    Ok(())
}

/// An ordered, possibly empty sequence of field values, rendered joined by
/// the literal separator `" and "`.
#[derive(Debug, Clone)]
pub struct List<T>(pub Vec<T>);

impl<T: View> View for List<T> {
    type V = Seq<T::V>;

    open spec fn view(&self) -> Seq<T::V> {
        self.0@.map_values(|t: T| t@)
    }
}

impl<T> List<T> {
    /// A list holding exactly one element.
    pub fn singleton(t: T) -> (l: List<T>)
        ensures
            l.0@.len() == 1,
            l.0@[0] == t,
    {
        let mut v = Vec::new();
        v.push(t);
        List(v)
    }
}

/// Texts joined by `" and "`.
pub open spec fn join_and(texts: Seq<Seq<char>>) -> Seq<char>
    decreases texts.len(),
{
    if texts.len() == 0 {
        Seq::empty()
    } else if texts.len() == 1 {
        texts[0]
    } else {
        texts[0] + " and "@ + join_and(texts.skip(1))
    }
}

/// The first `Some` among a sequence of optional errors.
pub open spec fn seq_first_err(es: Seq<Option<EscapeError>>) -> Option<EscapeError>
    decreases es.len(),
{
    if es.len() == 0 {
        None
    } else if es[0] is Some {
        es[0]
    } else {
        seq_first_err(es.skip(1))
    }
}

/// The rendering of a list of names.
pub open spec fn names_text(ns: Seq<NameV>) -> Seq<char> {
    join_and(ns.map_values(|n: NameV| name_text(n)))
}

/// The first escaping failure among a list of names, in list order.
pub open spec fn names_err(ns: Seq<NameV>) -> Option<EscapeError> {
    seq_first_err(ns.map_values(|n: NameV| name_err(n)))
}

/// The rendering of a list of literals.
pub open spec fn lits_text(ts: Seq<Seq<char>>) -> Seq<char> {
    join_and(ts.map_values(|t: Seq<char>| escaped_text(t)))
}

/// The first escaping failure among a list of literals, in list order.
pub open spec fn lits_err(ts: Seq<Seq<char>>) -> Option<EscapeError> {
    seq_first_err(ts.map_values(|t: Seq<char>| escape_failure(t)))
}

/// Render the tail of a name list starting at `i`, elements joined by
/// `" and "`.
fn push_names_from(out: &mut Vec<char>, ns: &Vec<Name>, i: usize) -> (r: Result<
    (),
    EscapeError,
>)
    requires
        i <= ns@.len(),
    ensures
        match r {
            Ok(_) => names_err(ns@.map_values(|n: Name| n@).skip(i as int)) is None && final(out)@
                == old(out)@ + names_text(ns@.map_values(|n: Name| n@).skip(i as int)),
            Err(e) => names_err(ns@.map_values(|n: Name| n@).skip(i as int)) == Some(e) && final(out)@ == old(out)@,
        },
    decreases ns@.len() - i,
{
    let ghost tail = ns@.map_values(|n: Name| n@).skip(i as int);
    proof {
        assert(tail.map_values(|n: NameV| name_text(n)).len() == tail.len());
        assert(tail.map_values(|n: NameV| name_err(n)).len() == tail.len());
    }
    if i == ns.len() {
        assert(tail =~= Seq::<NameV>::empty());
        assert(tail.map_values(|n: NameV| name_text(n)) =~= Seq::<Seq<char>>::empty());
        assert(tail.map_values(|n: NameV| name_err(n)) =~= Seq::<Option<EscapeError>>::empty());
        return Ok(());
    }
    let mut t: Vec<char> = Vec::new();
    match push_name(&mut t, &ns[i]) {
        Ok(_) => {},
        Err(e) => {
            proof {
                assert(tail[0] == ns@[i as int]@);
                assert(tail.map_values(|n: NameV| name_err(n))[0] == name_err(tail[0]));
            }
            return Err(e);
        },
    }
    proof {
        assert(tail[0] == ns@[i as int]@);
        assert(tail.map_values(|n: NameV| name_err(n))[0] == name_err(tail[0]));
        assert(tail.map_values(|n: NameV| name_text(n))[0] == name_text(tail[0]));
    }
    if i + 1 == ns.len() {
        out.append(&mut t);
        proof {
            assert(tail.len() == 1);
            assert(tail.map_values(|n: NameV| name_err(n)).len() == 1);
            assert(tail.map_values(|n: NameV| name_err(n)).skip(1) =~= Seq::<
                Option<EscapeError>,
            >::empty());
            assert(seq_first_err(Seq::<Option<EscapeError>>::empty()) is None);
            assert(names_text(tail) == name_text(tail[0]));
            assert(out@ =~= old(out)@ + names_text(tail));
        }
        return Ok(());
    }
    push_str_chars(&mut t, " and ");
    match push_names_from(&mut t, ns, i + 1) {
        Ok(_) => {},
        Err(e) => {
            proof {
                let rest = ns@.map_values(|n: Name| n@).skip(i + 1);
                assert(rest =~= tail.skip(1));
                assert(tail.map_values(|n: NameV| name_err(n)).skip(1) =~= tail.skip(
                    1,
                ).map_values(|n: NameV| name_err(n)));
            }
            return Err(e);
        },
    }
    out.append(&mut t);
    proof {
        let rest = ns@.map_values(|n: Name| n@).skip(i + 1);
        assert(rest =~= tail.skip(1));
        assert(tail.map_values(|n: NameV| name_err(n)).skip(1) =~= tail.skip(1).map_values(
            |n: NameV| name_err(n),
        ));
        assert(tail.map_values(|n: NameV| name_text(n)).skip(1) =~= tail.skip(1).map_values(
            |n: NameV| name_text(n),
        ));
        assert(join_and(tail.map_values(|n: NameV| name_text(n))) == name_text(tail[0]) + " and "@
            + join_and(tail.skip(1).map_values(|n: NameV| name_text(n))));
        assert(out@ =~= old(out)@ + names_text(tail));
    }
    Ok(())
}

/// Append the rendering of a name list to `out`; on failure `out` is
/// unchanged.
pub fn push_names(out: &mut Vec<char>, ns: &List<Name>) -> (r: Result<(), EscapeError>)
    ensures
        match r {
            Ok(_) => names_err(ns@) is None && final(out)@ == old(out)@ + names_text(ns@),
            Err(e) => names_err(ns@) == Some(e) && final(out)@ == old(out)@,
        },
{
    let r = push_names_from(out, &ns.0, 0);
    proof {
        assert(ns.0@.map_values(|n: Name| n@).skip(0) =~= ns@);
    }
    r
}

/// Render the tail of a literal list starting at `i`, elements joined by
/// `" and "`.
fn push_lits_from(out: &mut Vec<char>, ts: &Vec<Literal>, i: usize) -> (r: Result<
    (),
    EscapeError,
>)
    requires
        i <= ts@.len(),
    ensures
        match r {
            Ok(_) => lits_err(ts@.map_values(|t: Literal| t@).skip(i as int)) is None && final(out)@
                == old(out)@ + lits_text(ts@.map_values(|t: Literal| t@).skip(i as int)),
            Err(e) => lits_err(ts@.map_values(|t: Literal| t@).skip(i as int)) == Some(e) && final(out)@ == old(out)@,
        },
    decreases ts@.len() - i,
{
    let ghost tail = ts@.map_values(|t: Literal| t@).skip(i as int);
    proof {
        assert(tail.map_values(|t: Seq<char>| escaped_text(t)).len() == tail.len());
        assert(tail.map_values(|t: Seq<char>| escape_failure(t)).len() == tail.len());
    }
    if i == ts.len() {
        assert(tail =~= Seq::<Seq<char>>::empty());
        assert(tail.map_values(|t: Seq<char>| escaped_text(t)) =~= Seq::<Seq<char>>::empty());
        assert(tail.map_values(|t: Seq<char>| escape_failure(t)) =~= Seq::<
            Option<EscapeError>,
        >::empty());
        return Ok(());
    }
    let mut t: Vec<char> = match escape_str(str_of(&ts[i].0)) {
        Ok(v) => v,
        Err(e) => {
            proof {
                assert(tail[0] == ts@[i as int]@);
                assert(tail.map_values(|t: Seq<char>| escape_failure(t))[0] == escape_failure(
                    tail[0],
                ));
            }
            return Err(e);
        },
    };
    proof {
        assert(tail[0] == ts@[i as int]@);
        assert(tail.map_values(|t: Seq<char>| escape_failure(t))[0] == escape_failure(tail[0]));
        assert(tail.map_values(|t: Seq<char>| escaped_text(t))[0] == escaped_text(tail[0]));
    }
    if i + 1 == ts.len() {
        out.append(&mut t);
        proof {
            assert(tail.len() == 1);
            assert(tail.map_values(|t: Seq<char>| escape_failure(t)).len() == 1);
            assert(tail.map_values(|t: Seq<char>| escape_failure(t)).skip(1) =~= Seq::<
                Option<EscapeError>,
            >::empty());
            assert(seq_first_err(Seq::<Option<EscapeError>>::empty()) is None);
            assert(lits_text(tail) == escaped_text(tail[0]));
            assert(out@ =~= old(out)@ + lits_text(tail));
        }
        return Ok(());
    }
    push_str_chars(&mut t, " and ");
    match push_lits_from(&mut t, ts, i + 1) {
        Ok(_) => {},
        Err(e) => {
            proof {
                let rest = ts@.map_values(|t: Literal| t@).skip(i + 1);
                assert(rest =~= tail.skip(1));
                assert(tail.map_values(|t: Seq<char>| escape_failure(t)).skip(1) =~= tail.skip(
                    1,
                ).map_values(|t: Seq<char>| escape_failure(t)));
            }
            return Err(e);
        },
    }
    out.append(&mut t);
    proof {
        let rest = ts@.map_values(|t: Literal| t@).skip(i + 1);
        assert(rest =~= tail.skip(1));
        assert(tail.map_values(|t: Seq<char>| escape_failure(t)).skip(1) =~= tail.skip(
            1,
        ).map_values(|t: Seq<char>| escape_failure(t)));
        assert(tail.map_values(|t: Seq<char>| escaped_text(t)).skip(1) =~= tail.skip(
            1,
        ).map_values(|t: Seq<char>| escaped_text(t)));
        assert(join_and(tail.map_values(|t: Seq<char>| escaped_text(t))) == escaped_text(tail[0])
            + " and "@ + join_and(tail.skip(1).map_values(|t: Seq<char>| escaped_text(t))));
        assert(out@ =~= old(out)@ + lits_text(tail));
    }
    Ok(())
}

/// Append the rendering of a literal list to `out`; on failure `out` is
/// unchanged.
pub fn push_lits(out: &mut Vec<char>, ts: &List<Literal>) -> (r: Result<(), EscapeError>)
    ensures
        match r {
            Ok(_) => lits_err(ts@) is None && final(out)@ == old(out)@ + lits_text(ts@),
            Err(e) => lits_err(ts@) == Some(e) && final(out)@ == old(out)@,
        },
{
    let r = push_lits_from(out, &ts.0, 0);
    proof {
        assert(ts.0@.map_values(|t: Literal| t@).skip(0) =~= ts@);
    }
    r
}

/// Append the escaped rendering of a literal to `out`; on failure `out` is
/// unchanged.
pub fn push_literal(out: &mut Vec<char>, l: &Literal) -> (r: Result<(), EscapeError>)
    ensures
        match r {
            Ok(_) => escape_failure(l@) is None && final(out)@ == old(out)@ + escaped_text(l@),
            Err(e) => escape_failure(l@) == Some(e) && final(out)@ == old(out)@,
        },
{
    let mut t = match escape_str(str_of(&l.0)) {
        Ok(v) => v,
        Err(e) => {
            return Err(e);
        },
    };
    out.append(&mut t);
    Ok(())
}

/// Append a string's characters unchanged to `out`.
pub fn push_verbatim(out: &mut Vec<char>, s: &String)
    ensures
        final(out)@ == old(out)@ + s@,
{
    push_str_chars(out, str_of(s));
}

} // verus!
