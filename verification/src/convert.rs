//! Conversion of CSL-JSON citation records into typed BibLaTeX entries.
//!
//! A record is a JSON object carrying at least `id` and `type`; the `type`
//! field (together with `genre`, for plain `article` records) picks the
//! entry variant, and the remaining fields are extracted by shape.  Every
//! failure names the field it arose in and, once known, the record id; a
//! malformed optional field aborts the conversion of its record rather than
//! being dropped.

use vstd::prelude::*;

use crate::json::{
    all_digits, ascii_lower, check_digits_range, digits_val, is_digit, lookup, lookup_field,
    lower_trim, trimmed, Json,
};
use crate::text::{chars_eq_str, chars_to_string, push_str_chars, str_chars, str_eq, str_of};
use crate::entry::{Article, Book, Entry, InProceedings, Misc, Report, Thesis};
use crate::types::{Date, List, Literal, Name, NameV, Range, Uri, Verbatim};
use vstd::string::StringExecFns;

verus! {

/// Why a present field could not be parsed.
///
/// A field of the wrong JSON shape gets the cause of the value it should
/// have held: a date field that is not a well-shaped date object is an
/// `InvalidDate`, a name that is not an object of two strings is an
/// `InvalidNameObject`, a date component that is not an integer is an
/// `InvalidNumber`, and a plain text field that is not a JSON string is an
/// `InvalidString`.
#[derive(Clone, Copy, Debug, PartialEq, Eq, Structural)]
pub enum Cause {
    InvalidDate,
    InvalidPageRange,
    InvalidArxivCategory,
    InvalidNameObject,
    InvalidNumber,
    InvalidString,
}

/// What went wrong converting a record, before the record id is attached.
#[derive(Debug, Clone)]
pub enum ConvertErrorKind {
    /// A field the entry variant requires is absent.
    MissingRequiredField(String),
    /// A field is present but cannot be parsed.
    MalformedField(String, Cause),
    /// The record's `type` is not one this converter knows.
    UnknownEntryType(String),
    /// The record is an `article` whose `genre` names no known subtype.
    UnknownArticleSubtype(String),
}

/// The spec-level value of a [`ConvertErrorKind`].
pub enum ErrKindV {
    MissingRequiredField(Seq<char>),
    MalformedField(Seq<char>, Cause),
    UnknownEntryType(Seq<char>),
    UnknownArticleSubtype(Seq<char>),
}

impl View for ConvertErrorKind {
    type V = ErrKindV;

    open spec fn view(&self) -> ErrKindV {
        match self {
            ConvertErrorKind::MissingRequiredField(f) => ErrKindV::MissingRequiredField(f@),
            ConvertErrorKind::MalformedField(f, c) => ErrKindV::MalformedField(f@, *c),
            ConvertErrorKind::UnknownEntryType(t) => ErrKindV::UnknownEntryType(t@),
            ConvertErrorKind::UnknownArticleSubtype(g) => ErrKindV::UnknownArticleSubtype(g@),
        }
    }
}

/// A conversion failure, carrying the record id where one was found.
#[derive(Debug, Clone)]
pub struct ConvertError {
    pub id: Option<String>,
    pub kind: ConvertErrorKind,
}

/// The spec-level value of a [`ConvertError`].
pub struct ConvertErrorV {
    pub id: Option<Seq<char>>,
    pub kind: ErrKindV,
}

impl View for ConvertError {
    type V = ConvertErrorV;

    open spec fn view(&self) -> ConvertErrorV {
        ConvertErrorV {
            id: match self.id {
                None => None,
                Some(s) => Some(s@),
            },
            kind: self.kind@,
        }
    }
}

/// The display string of a parse-failure cause.
pub open spec fn cause_text(c: Cause) -> Seq<char> {
    match c {
        Cause::InvalidDate => "invalid date"@,
        Cause::InvalidPageRange => "invalid page range"@,
        Cause::InvalidArxivCategory => "invalid arXiv category"@,
        Cause::InvalidNameObject => "invalid name object"@,
        Cause::InvalidNumber => "invalid number"@,
        Cause::InvalidString => "expected a string"@,
    }
}

/// The display string of an error kind.
pub open spec fn err_kind_text(k: ErrKindV) -> Seq<char> {
    match k {
        ErrKindV::MissingRequiredField(f) => "missing field `"@ + f + "`"@,
        ErrKindV::MalformedField(f, c) => "malformed field `"@ + f + "`: "@ + cause_text(c),
        ErrKindV::UnknownEntryType(t) => "no BibLaTeX entry type for CSL type `"@ + t + "`"@,
        ErrKindV::UnknownArticleSubtype(g) => "unknown article sub-type `"@ + g + "`"@,
    }
}

/// The display string of a conversion failure: the record id, when one was
/// found, then what went wrong.
pub open spec fn convert_error_text(e: ConvertErrorV) -> Seq<char> {
    match e.id {
        None => err_kind_text(e.kind),
        Some(id) => "entry `"@ + id + "`: "@ + err_kind_text(e.kind),
    }
}

impl ConvertError {
    /// A human-readable description of this failure.
    pub fn describe(&self) -> (r: String)
        ensures
            r@ == convert_error_text(self@),
    {
        let mut out: Vec<char> = Vec::new();
        match &self.id {
            None => {},
            Some(id) => {
                push_str_chars(&mut out, "entry `");
                push_str_chars(&mut out, str_of(id));
                push_str_chars(&mut out, "`: ");
            },
        }
        match &self.kind {
            ConvertErrorKind::MissingRequiredField(f) => {
                push_str_chars(&mut out, "missing field `");
                push_str_chars(&mut out, str_of(f));
                push_str_chars(&mut out, "`");
            },
            ConvertErrorKind::MalformedField(f, c) => {
                push_str_chars(&mut out, "malformed field `");
                push_str_chars(&mut out, str_of(f));
                push_str_chars(&mut out, "`: ");
                match c {
                    Cause::InvalidDate => push_str_chars(&mut out, "invalid date"),
                    Cause::InvalidPageRange => push_str_chars(&mut out, "invalid page range"),
                    Cause::InvalidArxivCategory => push_str_chars(
                        &mut out,
                        "invalid arXiv category",
                    ),
                    Cause::InvalidNameObject => push_str_chars(&mut out, "invalid name object"),
                    Cause::InvalidNumber => push_str_chars(&mut out, "invalid number"),
                    Cause::InvalidString => push_str_chars(&mut out, "expected a string"),
                }
            },
            ConvertErrorKind::UnknownEntryType(t) => {
                push_str_chars(&mut out, "no BibLaTeX entry type for CSL type `");
                push_str_chars(&mut out, str_of(t));
                push_str_chars(&mut out, "`");
            },
            ConvertErrorKind::UnknownArticleSubtype(g) => {
                push_str_chars(&mut out, "unknown article sub-type `");
                push_str_chars(&mut out, str_of(g));
                push_str_chars(&mut out, "`");
            },
        }
        proof {
            assert(out@ =~= convert_error_text(self@));
        }
        chars_to_string(&out)
    }
}

/// One citation record: the fields of a JSON object, in order.
#[derive(Debug)]
pub struct CslRecord {
    pub fields: Vec<(String, Json)>,
}

// ---------------------------------------------------------------------------
// Field-shape readers, spec side.
// ---------------------------------------------------------------------------

/// The string a JSON value holds, if it is a string.
pub open spec fn str_of_json(v: Json) -> Option<Seq<char>> {
    match v {
        Json::Str(s) => Some(s@),
        _ => None,
    }
}

/// The signed integer reading of a JSON value, if it is a number with one.
pub open spec fn int_of_json(v: Json) -> Option<i64> {
    match v {
        Json::Num(n) => n.as_int,
        _ => None,
    }
}

/// The unsigned integer reading of a JSON value, if it is a number with one.
pub open spec fn uint_of_json(v: Json) -> Option<u64> {
    match v {
        Json::Num(n) => n.as_uint,
        _ => None,
    }
}

/// A name: an object with string fields `given` and `family`.
pub open spec fn name_of_json(v: Json) -> Option<NameV> {
    match v {
        Json::Obj(fs) => match lookup(fs@, "given"@) {
            Some(Json::Str(g)) => match lookup(fs@, "family"@) {
                Some(Json::Str(f)) => Some(NameV { given: g@, family: f@ }),
                _ => None,
            },
            _ => None,
        },
        _ => None,
    }
}

/// Every element of a list read as a name, order preserved; `None` when any
/// element is not a well-shaped name.
pub open spec fn names_of_list(items: Seq<Json>) -> Option<Seq<NameV>>
    decreases items.len(),
{
    if items.len() == 0 {
        Some(Seq::empty())
    } else {
        match names_of_list(items.drop_last()) {
            None => None,
            Some(front) => match name_of_json(items.last()) {
                None => None,
                Some(n) => Some(front.push(n)),
            },
        }
    }
}

/// A name list: an array whose elements are all names.
pub open spec fn names_of_json(v: Json) -> Option<Seq<NameV>> {
    match v {
        Json::Arr(items) => names_of_list(items@),
        _ => None,
    }
}

/// A failed prefix dooms the whole name list.
proof fn lemma_names_none_prefix(items: Seq<Json>, k: int)
    requires
        0 <= k <= items.len(),
        names_of_list(items.take(k)) is None,
    ensures
        names_of_list(items) is None,
    decreases items.len() - k,
{
    if k < items.len() {
        assert(items.take(k + 1).drop_last() =~= items.take(k));
        lemma_names_none_prefix(items, k + 1);
    } else {
        assert(items.take(k) =~= items);
    }
}

/// The date a record's `issued` value denotes: either a single
/// `date-parts` array of one to three integer components, or a `raw` string
/// in one of the forms `YYYY`, `YYYY-M[M]`, `YYYY-M[M]-D[D]`.
pub open spec fn date_of_json(v: Json) -> Result<Date, Cause> {
    match v {
        Json::Obj(fs) => match lookup(fs@, "date-parts"@) {
            Some(dp) => date_of_parts(dp),
            None => match lookup(fs@, "raw"@) {
                Some(Json::Str(s)) => raw_date(s@),
                Some(_) => Err(Cause::InvalidDate),
                None => Err(Cause::InvalidDate),
            },
        },
        _ => Err(Cause::InvalidDate),
    }
}

/// A `date-parts` value: an array holding exactly one array of one to three
/// numeric components, read as year, month, day.
pub open spec fn date_of_parts(v: Json) -> Result<Date, Cause> {
    match v {
        Json::Arr(outer) => {
            if outer@.len() != 1 {
                Err(Cause::InvalidDate)
            } else {
                match outer@[0] {
                    Json::Arr(parts) => date_of_parts_list(parts@),
                    _ => Err(Cause::InvalidDate),
                }
            }
        },
        _ => Err(Cause::InvalidDate),
    }
}

/// Year, month and day from one to three numeric components.  The year is
/// read signed, month and day unsigned; each is narrowed to 32 bits.
pub open spec fn date_of_parts_list(parts: Seq<Json>) -> Result<Date, Cause> {
    if parts.len() < 1 || parts.len() > 3 {
        Err(Cause::InvalidDate)
    } else {
        match int_of_json(parts[0]) {
            None => Err(Cause::InvalidNumber),
            Some(y) => {
                if parts.len() == 1 {
                    Ok(Date { year: y as i32, month: None, day: None })
                } else {
                    match uint_of_json(parts[1]) {
                        None => Err(Cause::InvalidNumber),
                        Some(m) => {
                            if parts.len() == 2 {
                                Ok(Date { year: y as i32, month: Some(m as i32), day: None })
                            } else {
                                match uint_of_json(parts[2]) {
                                    None => Err(Cause::InvalidNumber),
                                    Some(d) => Ok(
                                        Date {
                                            year: y as i32,
                                            month: Some(m as i32),
                                            day: Some(d as i32),
                                        },
                                    ),
                                }
                            }
                        },
                    }
                }
            },
        }
    }
}

/// A raw date string.  Exactly three forms are accepted, tried in order:
/// four digits; four digits, a dash and one or two digits; four digits and
/// two dash-separated groups of one or two digits.  Months run 1 to 12 and
/// days 1 to 31; anything else is an invalid date.
pub open spec fn raw_date(s: Seq<char>) -> Result<Date, Cause> {
    if s.len() == 4 && all_digits(s) {
        Ok(Date { year: digits_val(s) as i32, month: None, day: None })
    } else if s.len() >= 6 && s[4] == '-' && all_digits(s.take(4)) {
        let y = digits_val(s.take(4)) as i32;
        if s.len() <= 7 && all_digits(s.skip(5)) {
            let m = digits_val(s.skip(5));
            if 1 <= m <= 12 {
                Ok(Date { year: y, month: Some(m as i32), day: None })
            } else {
                Err(Cause::InvalidDate)
            }
        } else if s.len() >= 8 && s.len() <= 9 && s[6] == '-' && all_digits(s.subrange(5, 6))
            && all_digits(s.skip(7)) {
            let m = digits_val(s.subrange(5, 6));
            let d = digits_val(s.skip(7));
            if 1 <= m <= 12 && 1 <= d <= 31 {
                Ok(Date { year: y, month: Some(m as i32), day: Some(d as i32) })
            } else {
                Err(Cause::InvalidDate)
            }
        } else if s.len() >= 9 && s.len() <= 10 && s[7] == '-' && all_digits(s.subrange(5, 7))
            && all_digits(s.skip(8)) {
            let m = digits_val(s.subrange(5, 7));
            let d = digits_val(s.skip(8));
            if 1 <= m <= 12 && 1 <= d <= 31 {
                Ok(Date { year: y, month: Some(m as i32), day: Some(d as i32) })
            } else {
                Err(Cause::InvalidDate)
            }
        } else {
            Err(Cause::InvalidDate)
        }
    } else {
        Err(Cause::InvalidDate)
    }
}

/// The value of a digit string is below ten to the power of its length.
pub open spec fn pow10(n: nat) -> nat
    decreases n,
{
    if n == 0 {
        1
    } else {
        10 * pow10((n - 1) as nat)
    }
}

/// A digit string of at most four digits is below ten thousand.
pub proof fn lemma_small_digits(s: Seq<char>)
    requires
        all_digits(s),
        s.len() <= 4,
    ensures
        digits_val(s) <= 9999,
{
    lemma_digits_val_bound(s);
    assert(pow10(0) == 1);
    assert(pow10(1) == 10);
    assert(pow10(2) == 100);
    assert(pow10(3) == 1000);
    assert(pow10(4) == 10000);
}

pub proof fn lemma_digits_val_bound(s: Seq<char>)
    requires
        all_digits(s),
    ensures
        digits_val(s) < pow10(s.len()),
    decreases s.len(),
{
    if s.len() > 0 {
        assert(all_digits(s.drop_last())) by {
            assert(forall|i: int| 0 <= i < s.len() - 1 ==> is_digit(s.drop_last()[i]));
        }
        lemma_digits_val_bound(s.drop_last());
        assert(crate::json::digit_val(s.last()) <= 9);
    }
}

// ---------------------------------------------------------------------------
// Page ranges.
// ---------------------------------------------------------------------------

/// The index of the first `-` in `s`, if any.
pub open spec fn dash_idx(s: Seq<char>) -> Option<int>
    decreases s.len(),
{
    if s.len() == 0 {
        None
    } else if s[0] == '-' {
        Some(0)
    } else {
        match dash_idx(s.skip(1)) {
            None => None,
            Some(k) => Some(k + 1),
        }
    }
}

proof fn lemma_dash_idx(s: Seq<char>, i: int)
    requires
        0 <= i <= s.len(),
        forall|t: int| 0 <= t < i ==> s[t] != '-',
        i < s.len() ==> s[i] == '-',
    ensures
        dash_idx(s) == if i < s.len() {
            Some(i)
        } else {
            None::<int>
        },
    decreases i,
{
    if i > 0 {
        lemma_dash_idx(s.skip(1), i - 1);
    }
}

/// A signed 32-bit integer as its standard string form reads it: an
/// optional sign followed by decimal digits, rejecting values out of range.
pub open spec fn parse_i32_seq(s: Seq<char>) -> Option<i32> {
    if s.len() == 0 {
        None
    } else if s[0] == '-' {
        if s.len() >= 2 && all_digits(s.skip(1)) && digits_val(s.skip(1)) <= 0x8000_0000 {
            Some((0 - digits_val(s.skip(1))) as i32)
        } else {
            None
        }
    } else if s[0] == '+' {
        if s.len() >= 2 && all_digits(s.skip(1)) && digits_val(s.skip(1)) <= 0x7FFF_FFFF {
            Some(digits_val(s.skip(1)) as i32)
        } else {
            None
        }
    } else {
        if all_digits(s) && digits_val(s) <= 0x7FFF_FFFF {
            Some(digits_val(s) as i32)
        } else {
            None
        }
    }
}

/// A page range string: a single integer, or two digit groups separated by
/// one dash.
pub open spec fn page_range_of(s: Seq<char>) -> Result<Range, Cause> {
    if parse_i32_seq(s) is Some {
        Ok(Range::Single(parse_i32_seq(s).unwrap()))
    } else {
        match dash_idx(s) {
            None => Err(Cause::InvalidPageRange),
            Some(k) => {
                if 1 <= k && k + 1 < s.len() && all_digits(s.take(k)) && all_digits(s.skip(k + 1))
                    && digits_val(s.take(k)) <= 0x7FFF_FFFF && digits_val(s.skip(k + 1))
                    <= 0x7FFF_FFFF {
                    Ok(
                        Range::Multi {
                            start: digits_val(s.take(k)) as i32,
                            end: Some(digits_val(s.skip(k + 1)) as i32),
                        },
                    )
                } else {
                    Err(Cause::InvalidPageRange)
                }
            },
        }
    }
}

/// A page field: a string in one of the two range forms.
pub open spec fn page_of_json(v: Json) -> Result<Range, Cause> {
    match v {
        Json::Str(s) => page_range_of(s@),
        _ => Err(Cause::InvalidPageRange),
    }
}

/// Parse the digits `cs[lo..hi]`, reporting `None` when the value exceeds
/// `limit`.
fn parse_digits_limit(cs: &Vec<char>, lo: usize, hi: usize, limit: u32) -> (r: Option<u32>)
    requires
        lo <= hi <= cs@.len(),
        all_digits(cs@.subrange(lo as int, hi as int)),
    ensures
        match r {
            Some(v) => digits_val(cs@.subrange(lo as int, hi as int)) == v as int && v <= limit,
            None => digits_val(cs@.subrange(lo as int, hi as int)) > limit as int,
        },
{
    let ghost s = cs@.subrange(lo as int, hi as int);
    let mut val: u64 = 0;
    let mut i = lo;
    while i < hi
        invariant
            lo <= i <= hi <= cs@.len(),
            s == cs@.subrange(lo as int, hi as int),
            all_digits(s),
            val as int == digits_val(s.take(i - lo)),
            val <= limit,
        decreases hi - i,
    {
        let c = cs[i];
        assert(s[i - lo] == cs@[i as int]);
        let d: u64 = (c as u32) as u64 - 48;
        let next: u64 = val * 10 + d;
        proof {
            assert(s.take(i + 1 - lo).drop_last() =~= s.take(i - lo));
            assert(s.take(i + 1 - lo).last() == s[i - lo]);
            assert(next as int == digits_val(s.take(i + 1 - lo)));
        }
        if next > limit as u64 {
            proof {
                crate::json::lemma_digits_val_prefix_le(s, i + 1 - lo);
            }
            return None;
        }
        val = next;
        i = i + 1;
    }
    proof {
        assert(s.take(hi - lo) =~= s);
    }
    Some(val as u32)
}

/// Parse a whole character vector as a signed 32-bit integer.
fn parse_i32_chars(cs: &Vec<char>) -> (r: Option<i32>)
    ensures
        r == parse_i32_seq(cs@),
{
    if cs.len() == 0 {
        return None;
    }
    let c0 = cs[0];
    if c0 == '-' {
        if cs.len() < 2 {
            return None;
        }
        if !check_digits_range(cs, 1, cs.len()) {
            assert(cs@.subrange(1, cs@.len() as int) =~= cs@.skip(1));
            return None;
        }
        assert(cs@.subrange(1, cs@.len() as int) =~= cs@.skip(1));
        match parse_digits_limit(cs, 1, cs.len(), 0x8000_0000u32) {
            None => None,
            Some(m) => {
                if m == 0x8000_0000u32 {
                    Some(i32::MIN)
                } else {
                    Some(-(m as i32))
                }
            },
        }
    } else if c0 == '+' {
        if cs.len() < 2 {
            return None;
        }
        if !check_digits_range(cs, 1, cs.len()) {
            assert(cs@.subrange(1, cs@.len() as int) =~= cs@.skip(1));
            return None;
        }
        assert(cs@.subrange(1, cs@.len() as int) =~= cs@.skip(1));
        match parse_digits_limit(cs, 1, cs.len(), 0x7FFF_FFFFu32) {
            None => None,
            Some(m) => Some(m as i32),
        }
    } else {
        if !check_digits_range(cs, 0, cs.len()) {
            assert(cs@.subrange(0, cs@.len() as int) =~= cs@);
            return None;
        }
        assert(cs@.subrange(0, cs@.len() as int) =~= cs@);
        match parse_digits_limit(cs, 0, cs.len(), 0x7FFF_FFFFu32) {
            None => None,
            Some(m) => Some(m as i32),
        }
    }
}

/// Parse a page range string.
pub fn convert_page_range(v: &Json) -> (r: Result<Range, Cause>)
    ensures
        r == page_of_json(*v),
{
    let st = match v {
        Json::Str(s) => s,
        _ => {
            return Err(Cause::InvalidPageRange);
        },
    };
    let cs = str_chars(str_of(st));
    match parse_i32_chars(&cs) {
        Some(i) => Ok(Range::Single(i)),
        None => {
            let mut k: usize = 0;
            while k < cs.len() && cs[k] != '-'
                invariant
                    k <= cs@.len(),
                    forall|t: int| 0 <= t < k ==> cs@[t] != '-',
                decreases cs@.len() - k,
            {
                k = k + 1;
            }
            proof {
                lemma_dash_idx(cs@, k as int);
            }
            if k == cs.len() || k == 0 || k + 1 >= cs.len() {
                return Err(Cause::InvalidPageRange);
            }
            if !check_digits_range(&cs, 0, k) {
                assert(cs@.subrange(0, k as int) =~= cs@.take(k as int));
                return Err(Cause::InvalidPageRange);
            }
            if !check_digits_range(&cs, k + 1, cs.len()) {
                assert(cs@.subrange(k + 1, cs@.len() as int) =~= cs@.skip(k + 1));
                return Err(Cause::InvalidPageRange);
            }
            assert(cs@.subrange(0, k as int) =~= cs@.take(k as int));
            assert(cs@.subrange(k + 1, cs@.len() as int) =~= cs@.skip(k + 1));
            let start = match parse_digits_limit(&cs, 0, k, 0x7FFF_FFFFu32) {
                None => {
                    return Err(Cause::InvalidPageRange);
                },
                Some(v) => v as i32,
            };
            let end = match parse_digits_limit(&cs, k + 1, cs.len(), 0x7FFF_FFFFu32) {
                None => {
                    return Err(Cause::InvalidPageRange);
                },
                Some(v) => v as i32,
            };
            Ok(Range::Multi { start, end: Some(end) })
        },
    }
}

// ---------------------------------------------------------------------------
// Names and dates, exec side.
// ---------------------------------------------------------------------------

/// Read one name object.
pub fn convert_name(v: &Json) -> (r: Result<Name, Cause>)
    ensures
        match r {
            Ok(n) => name_of_json(*v) == Some(n@),
            Err(c) => name_of_json(*v) is None && c == Cause::InvalidNameObject,
        },
{
    let fs = match v {
        Json::Obj(fs) => fs,
        _ => {
            return Err(Cause::InvalidNameObject);
        },
    };
    let given = match lookup_field(fs, "given") {
        Some(Json::Str(g)) => g.clone(),
        _ => {
            return Err(Cause::InvalidNameObject);
        },
    };
    let family = match lookup_field(fs, "family") {
        Some(Json::Str(f)) => f.clone(),
        _ => {
            return Err(Cause::InvalidNameObject);
        },
    };
    Ok(Name::new(given, family))
}

/// Read a list of name objects, order preserved.
pub fn convert_name_list(v: &Json) -> (r: Result<List<Name>, Cause>)
    ensures
        match r {
            Ok(l) => names_of_json(*v) == Some(l@),
            Err(c) => names_of_json(*v) is None && c == Cause::InvalidNameObject,
        },
{
    let items = match v {
        Json::Arr(items) => items,
        _ => {
            return Err(Cause::InvalidNameObject);
        },
    };
    let mut out: Vec<Name> = Vec::new();
    let mut i: usize = 0;
    while i < items.len()
        invariant
            i <= items@.len(),
            names_of_json(*v) == names_of_list(items@),
            names_of_list(items@.take(i as int)) == Some(out@.map_values(|n: Name| n@)),
        decreases items@.len() - i,
    {
        match convert_name(&items[i]) {
            Ok(n) => {
                out.push(n);
                proof {
                    assert(items@.take(i + 1).drop_last() =~= items@.take(i as int));
                    assert(items@.take(i + 1).last() == items@[i as int]);
                    assert(out@.map_values(|n: Name| n@) =~= out@.drop_last().map_values(
                        |n: Name| n@,
                    ).push(out@.last()@));
                }
            },
            Err(c) => {
                proof {
                    assert(items@.take(i + 1).drop_last() =~= items@.take(i as int));
                    assert(items@.take(i + 1).last() == items@[i as int]);
                    assert(names_of_list(items@.take(i + 1)) is None);
                    lemma_names_none_prefix(items@, i + 1);
                }
                return Err(Cause::InvalidNameObject);
            },
        }
        i = i + 1;
    }
    proof {
        assert(items@.take(items@.len() as int) =~= items@);
    }
    Ok(List(out))
}

/// Read a date value, in either of its two accepted shapes.
pub fn convert_date(v: &Json) -> (r: Result<Date, Cause>)
    ensures
        r == date_of_json(*v),
        r matches Ok(d) ==> d.well_formed(),
{
    let fs = match v {
        Json::Obj(fs) => fs,
        _ => {
            return Err(Cause::InvalidDate);
        },
    };
    match lookup_field(fs, "date-parts") {
        Some(dp) => convert_date_parts(dp),
        None => match lookup_field(fs, "raw") {
            Some(Json::Str(s)) => convert_raw_date(str_of(s)),
            Some(_) => Err(Cause::InvalidDate),
            None => Err(Cause::InvalidDate),
        },
    }
}

fn convert_date_parts(v: &Json) -> (r: Result<Date, Cause>)
    ensures
        r == date_of_parts(*v),
{
    let outer = match v {
        Json::Arr(outer) => outer,
        _ => {
            return Err(Cause::InvalidDate);
        },
    };
    if outer.len() != 1 {
        return Err(Cause::InvalidDate);
    }
    let parts = match &outer[0] {
        Json::Arr(parts) => parts,
        _ => {
            return Err(Cause::InvalidDate);
        },
    };
    if parts.len() < 1 || parts.len() > 3 {
        return Err(Cause::InvalidDate);
    }
    let y: i64 = match &parts[0] {
        Json::Num(n) => match n.as_int {
            Some(y) => y,
            None => {
                return Err(Cause::InvalidNumber);
            },
        },
        _ => {
            return Err(Cause::InvalidNumber);
        },
    };
    let year: i32 = #[verifier::truncate] (y as i32);
    if parts.len() == 1 {
        return Ok(Date { year, month: None, day: None });
    }
    let m: u64 = match &parts[1] {
        Json::Num(n) => match n.as_uint {
            Some(m) => m,
            None => {
                return Err(Cause::InvalidNumber);
            },
        },
        _ => {
            return Err(Cause::InvalidNumber);
        },
    };
    let month: i32 = #[verifier::truncate] (m as i32);
    if parts.len() == 2 {
        return Ok(Date { year, month: Some(month), day: None });
    }
    let d: u64 = match &parts[2] {
        Json::Num(n) => match n.as_uint {
            Some(d) => d,
            None => {
                return Err(Cause::InvalidNumber);
            },
        },
        _ => {
            return Err(Cause::InvalidNumber);
        },
    };
    let day: i32 = #[verifier::truncate] (d as i32);
    Ok(Date { year, month: Some(month), day: Some(day) })
}

fn convert_raw_date(s: &str) -> (r: Result<Date, Cause>)
    ensures
        r == raw_date(s@),
{
    let cs = str_chars(s);
    let n = cs.len();
    if n == 4 && check_digits_range(&cs, 0, 4) {
        assert(cs@.subrange(0, 4) =~= cs@);
        proof {
            lemma_small_digits(cs@);
        }
        match parse_digits_limit(&cs, 0, 4, 0x7FFF_FFFFu32) {
            Some(y) => {
                return Ok(Date { year: y as i32, month: None, day: None });
            },
            None => {
                // unreachable: a four-digit value is below ten thousand
                return Err(Cause::InvalidDate);
            },
        }
    }
    if n == 4 {
        return Err(Cause::InvalidDate);
    }
    if n < 6 || cs[4] != '-' || !check_digits_range(&cs, 0, 4) {
        proof {
            if n >= 6 {
                assert(cs@.subrange(0, 4) =~= cs@.take(4));
            }
        }
        return Err(Cause::InvalidDate);
    }
    assert(cs@.subrange(0, 4) =~= cs@.take(4));
    proof {
        lemma_small_digits(cs@.take(4));
    }
    let y: i32 = match parse_digits_limit(&cs, 0, 4, 0x7FFF_FFFFu32) {
        Some(y) => y as i32,
        None => {
            return Err(Cause::InvalidDate);
        },
    };
    if n <= 7 && check_digits_range(&cs, 5, n) {
        assert(cs@.subrange(5, n as int) =~= cs@.skip(5));
        proof {
            lemma_small_digits(cs@.skip(5));
        }
        let m: i32 = match parse_digits_limit(&cs, 5, n, 0x7FFF_FFFFu32) {
            Some(m) => m as i32,
            None => {
                return Err(Cause::InvalidDate);
            },
        };
        if 1 <= m && m <= 12 {
            return Ok(Date { year: y, month: Some(m), day: None });
        }
        return Err(Cause::InvalidDate);
    }
    proof {
        if n <= 7 {
            assert(cs@.subrange(5, n as int) =~= cs@.skip(5));
        }
    }
    if n >= 8 && n <= 9 && cs[6] == '-' && check_digits_range(&cs, 5, 6) && check_digits_range(
        &cs,
        7,
        n,
    ) {
        assert(cs@.subrange(7, n as int) =~= cs@.skip(7));
        proof {
            lemma_small_digits(cs@.subrange(5, 6));
            lemma_small_digits(cs@.skip(7));
        }
        let m: i32 = match parse_digits_limit(&cs, 5, 6, 0x7FFF_FFFFu32) {
            Some(m) => m as i32,
            None => {
                return Err(Cause::InvalidDate);
            },
        };
        let d: i32 = match parse_digits_limit(&cs, 7, n, 0x7FFF_FFFFu32) {
            Some(d) => d as i32,
            None => {
                return Err(Cause::InvalidDate);
            },
        };
        if 1 <= m && m <= 12 && 1 <= d && d <= 31 {
            return Ok(Date { year: y, month: Some(m), day: Some(d) });
        }
        return Err(Cause::InvalidDate);
    }
    proof {
        if n >= 8 && n <= 9 {
            assert(cs@.subrange(7, n as int) =~= cs@.skip(7));
        }
    }
    if n >= 9 && n <= 10 && cs[7] == '-' && check_digits_range(&cs, 5, 7) && check_digits_range(
        &cs,
        8,
        n,
    ) {
        assert(cs@.subrange(8, n as int) =~= cs@.skip(8));
        proof {
            lemma_small_digits(cs@.subrange(5, 7));
            lemma_small_digits(cs@.skip(8));
        }
        let m: i32 = match parse_digits_limit(&cs, 5, 7, 0x7FFF_FFFFu32) {
            Some(m) => m as i32,
            None => {
                return Err(Cause::InvalidDate);
            },
        };
        let d: i32 = match parse_digits_limit(&cs, 8, n, 0x7FFF_FFFFu32) {
            Some(d) => d as i32,
            None => {
                return Err(Cause::InvalidDate);
            },
        };
        if 1 <= m && m <= 12 && 1 <= d && d <= 31 {
            return Ok(Date { year: y, month: Some(m), day: Some(d) });
        }
        return Err(Cause::InvalidDate);
    }
    proof {
        if n >= 9 && n <= 10 {
            assert(cs@.subrange(8, n as int) =~= cs@.skip(8));
        }
    }
    Err(Cause::InvalidDate)
}


// ---------------------------------------------------------------------------
// arXiv categories and identifiers.
// ---------------------------------------------------------------------------

/// Lower-case ASCII letters.
pub open spec fn is_lower_ascii(c: char) -> bool {
    let u = c as u32;
    97 <= u && u <= 122
}

/// Upper-case ASCII letters.
pub open spec fn is_upper_ascii(c: char) -> bool {
    let u = c as u32;
    65 <= u && u <= 90
}

/// The length of the run of lower-case letters starting at `i`.
pub open spec fn lower_run(s: Seq<char>, i: int) -> nat
    decreases s.len() - i,
{
    if i < 0 || i >= s.len() || !is_lower_ascii(s[i]) {
        0
    } else {
        1 + lower_run(s, i + 1)
    }
}

/// The length of the run of upper-case letters starting at `i`.
pub open spec fn upper_run(s: Seq<char>, i: int) -> nat
    decreases s.len() - i,
{
    if i < 0 || i >= s.len() || !is_upper_ascii(s[i]) {
        0
    } else {
        1 + upper_run(s, i + 1)
    }
}

proof fn lemma_lower_run_exact(s: Seq<char>, i: int, k: int)
    requires
        0 <= i,
        0 <= k,
        i + k <= s.len(),
        forall|t: int| i <= t < i + k ==> is_lower_ascii(s[t]),
        i + k < s.len() ==> !is_lower_ascii(s[i + k]),
    ensures
        lower_run(s, i) == k,
    decreases k,
{
    if k > 0 {
        lemma_lower_run_exact(s, i + 1, k - 1);
    }
}

proof fn lemma_upper_run_exact(s: Seq<char>, i: int, k: int)
    requires
        0 <= i,
        0 <= k,
        i + k <= s.len(),
        forall|t: int| i <= t < i + k ==> is_upper_ascii(s[t]),
        i + k < s.len() ==> !is_upper_ascii(s[i + k]),
    ensures
        upper_run(s, i) == k,
    decreases k,
{
    if k > 0 {
        lemma_upper_run_exact(s, i + 1, k - 1);
    }
}

/// The short category code matched at position `i`: an opening parenthesis,
/// one or more lower-case letters, a dot, one or more upper-case letters and
/// a closing parenthesis.  The code is the part between the parentheses.
pub open spec fn cat_match_at(s: Seq<char>, i: int) -> Option<Seq<char>> {
    if 0 <= i < s.len() && s[i] == '(' {
        let l = lower_run(s, i + 1) as int;
        if l >= 1 && i + 1 + l < s.len() && s[i + 1 + l] == '.' {
            let u = upper_run(s, i + 2 + l) as int;
            if u >= 1 && i + 2 + l + u < s.len() && s[i + 2 + l + u] == ')' {
                Some(s.subrange(i + 1, i + 2 + l + u))
            } else {
                None
            }
        } else {
            None
        }
    } else {
        None
    }
}

/// The leftmost category code at or after position `i`.
pub open spec fn find_cat(s: Seq<char>, i: int) -> Option<Seq<char>>
    decreases s.len() - i,
{
    if i < 0 || i >= s.len() {
        None
    } else if cat_match_at(s, i) is Some {
        cat_match_at(s, i)
    } else {
        find_cat(s, i + 1)
    }
}

/// The leftmost parenthesized short category code in an arXiv category
/// string, such as the `math.OC` of `Optimization and Control (math.OC)`.
pub open spec fn arxiv_category(s: Seq<char>) -> Option<Seq<char>> {
    find_cat(s, 0)
}

/// Extract the parenthesized short code from an arXiv category string.
pub fn parse_arxiv_category(s: &str) -> (r: Result<String, Cause>)
    ensures
        match r {
            Ok(code) => arxiv_category(s@) == Some(code@),
            Err(c) => arxiv_category(s@) is None && c == Cause::InvalidArxivCategory,
        },
{
    let cs = str_chars(s);
    let n = cs.len();
    let mut i: usize = 0;
    while i < n
        invariant
            i <= n,
            n == cs@.len(),
            cs@ == s@,
            find_cat(cs@, 0) == find_cat(cs@, i as int),
        decreases n - i,
    {
        if cs[i] == '(' {
            let mut j = i + 1;
            while j < n && is_lower_char(cs[j])
                invariant
                    i + 1 <= j <= n,
                    n == cs@.len(),
                    forall|t: int| i + 1 <= t < j ==> is_lower_ascii(cs@[t]),
                decreases n - j,
            {
                j = j + 1;
            }
            proof {
                lemma_lower_run_exact(cs@, i + 1, j - i - 1);
            }
            let l = j - i - 1;
            if l >= 1 && j < n && cs[j] == '.' {
                let mut k = j + 1;
                while k < n && is_upper_char(cs[k])
                    invariant
                        j + 1 <= k <= n,
                        n == cs@.len(),
                        forall|t: int| j + 1 <= t < k ==> is_upper_ascii(cs@[t]),
                    decreases n - k,
                {
                    k = k + 1;
                }
                proof {
                    lemma_upper_run_exact(cs@, j + 1, k - j - 1);
                }
                let u = k - j - 1;
                if u >= 1 && k < n && cs[k] == ')' {
                    let code = crate::text::chars_range(&cs, i + 1, k);
                    proof {
                        assert(cat_match_at(cs@, i as int) == Some(cs@.subrange(i + 1, k as int)));
                    }
                    return Ok(chars_to_string(&code));
                }
            }
            proof {
                assert(cat_match_at(cs@, i as int) is None);
            }
        } else {
            proof {
                assert(cat_match_at(cs@, i as int) is None);
            }
        }
        i = i + 1;
    }
    Err(Cause::InvalidArxivCategory)
}

fn is_lower_char(c: char) -> (r: bool)
    ensures
        r == is_lower_ascii(c),
{
    let u = c as u32;
    97 <= u && u <= 122
}

fn is_upper_char(c: char) -> (r: bool)
    ensures
        r == is_upper_ascii(c),
{
    let u = c as u32;
    65 <= u && u <= 90
}

/// The final path segment of a URL: everything after the last slash, or the
/// whole string when it has none.
pub open spec fn tail_segment(s: Seq<char>) -> Seq<char>
    decreases s.len(),
{
    if s.len() == 0 {
        s
    } else if s.last() == '/' {
        Seq::empty()
    } else {
        tail_segment(s.drop_last()).push(s.last())
    }
}

proof fn lemma_tail_segment(s: Seq<char>, k: int)
    requires
        0 <= k <= s.len(),
        k > 0 ==> s[k - 1] == '/',
        forall|t: int| k <= t < s.len() ==> s[t] != '/',
    ensures
        tail_segment(s) == s.skip(k),
    decreases s.len(),
{
    if s.len() == k {
        if k == 0 {
            assert(s.skip(0) =~= s);
        } else {
            assert(s.last() == '/');
            assert(s.skip(k) =~= Seq::<char>::empty());
        }
    } else {
        assert(s.last() != '/');
        lemma_tail_segment(s.drop_last(), k);
        assert(s.drop_last().skip(k).push(s.last()) =~= s.skip(k));
    }
}

/// The final path segment of a URL string.
fn url_tail_segment(s: &String) -> (r: Vec<char>)
    ensures
        r@ == tail_segment(s@),
{
    let cs = str_chars(str_of(s));
    let n = cs.len();
    let mut k = n;
    while k > 0 && cs[k - 1] != '/'
        invariant
            k <= n,
            n == cs@.len(),
            forall|t: int| k <= t < n ==> cs@[t] != '/',
        decreases k,
    {
        k = k - 1;
    }
    proof {
        lemma_tail_segment(cs@, k as int);
    }
    let r = crate::text::chars_range(&cs, k, n);
    proof {
        assert(cs@.subrange(k as int, n as int) =~= cs@.skip(k as int));
    }
    r
}


// ---------------------------------------------------------------------------
// What conversion yields, spec side.
// ---------------------------------------------------------------------------

/// The fields a converted journal article carries.
pub struct ArticleConv {
    pub id: Seq<char>,
    pub author: Seq<NameV>,
    pub title: Seq<char>,
    pub journal_title: Seq<char>,
    pub year: i32,
    pub month: Option<i32>,
    pub doi: Option<Seq<char>>,
    pub number: Option<Seq<char>>,
    pub pages: Option<Range>,
    pub volume: Option<Seq<char>>,
}

/// The fields a converted thesis carries.
pub struct ThesisConv {
    pub id: Seq<char>,
    pub author: Seq<NameV>,
    pub title: Seq<char>,
    pub type_: Seq<char>,
    pub institution: Seq<char>,
    pub year: i32,
    pub month: Option<i32>,
}

/// The fields a converted conference paper carries.
pub struct InProcConv {
    pub id: Seq<char>,
    pub author: Seq<NameV>,
    pub title: Seq<char>,
    pub book_title: Seq<char>,
    pub year: i32,
    pub month: Option<i32>,
    pub doi: Option<Seq<char>>,
    pub publisher: Option<Seq<char>>,
    pub location: Option<Seq<char>>,
}

/// The fields a converted report or working paper carries.
pub struct ReportConv {
    pub id: Seq<char>,
    pub author: Seq<NameV>,
    pub title: Seq<char>,
    pub type_: Seq<char>,
    pub institution: Seq<char>,
    pub year: i32,
    pub month: Option<i32>,
    pub number: Option<Seq<char>>,
    pub url: Option<Seq<char>>,
}

/// The fields a converted arXiv preprint carries; its `eprinttype` is always
/// the literal `arXiv`.
pub struct ArxivConv {
    pub id: Seq<char>,
    pub author: Seq<NameV>,
    pub title: Seq<char>,
    pub year: i32,
    pub eprint: Seq<char>,
    pub eprint_class: Seq<char>,
    pub version: Option<Seq<char>>,
}

/// The fields a converted book carries.
pub struct BookConv {
    pub id: Seq<char>,
    pub author: Seq<NameV>,
    pub title: Seq<char>,
    pub year: i32,
    pub chapter: Option<Seq<char>>,
    pub doi: Option<Seq<char>>,
    pub isbn: Option<Seq<char>>,
    pub publisher: Option<Seq<char>>,
    pub location: Option<Seq<char>>,
    pub pages: Option<Range>,
}

/// What a record converts to, by variant.
pub enum EntryConv {
    Article(ArticleConv),
    Thesis(ThesisConv),
    InProceedings(InProcConv),
    Report(ReportConv),
    Arxiv(ArxivConv),
    Book(BookConv),
}

/// Does an optional literal hold exactly this optional text?
pub open spec fn opt_lit_is(o: Option<Literal>, v: Option<Seq<char>>) -> bool {
    match (o, v) {
        (None, None) => true,
        (Some(l), Some(s)) => l@ == s,
        _ => false,
    }
}

/// Does an optional verbatim value hold exactly this optional text?
pub open spec fn opt_verb_is(o: Option<Verbatim>, v: Option<Seq<char>>) -> bool {
    match (o, v) {
        (None, None) => true,
        (Some(l), Some(s)) => l@ == s,
        _ => false,
    }
}

/// Does an optional URI hold exactly this optional text?
pub open spec fn opt_uri_is(o: Option<Uri>, v: Option<Seq<char>>) -> bool {
    match (o, v) {
        (None, None) => true,
        (Some(l), Some(s)) => l@ == s,
        _ => false,
    }
}

/// Does an optional literal list hold exactly one literal of this optional
/// text?
pub open spec fn opt_single_lits_is(o: Option<List<Literal>>, v: Option<Seq<char>>) -> bool {
    match (o, v) {
        (None, None) => true,
        (Some(l), Some(s)) => l@ == seq![s],
        _ => false,
    }
}

// ---------------------------------------------------------------------------
// Field extraction, spec side.
// ---------------------------------------------------------------------------

/// A required plain text field.
pub open spec fn req_str_spec(fs: Seq<(String, Json)>, key: Seq<char>) -> Result<
    Seq<char>,
    ErrKindV,
> {
    match lookup(fs, key) {
        None => Err(ErrKindV::MissingRequiredField(key)),
        Some(Json::Str(s)) => Ok(s@),
        Some(_) => Err(ErrKindV::MalformedField(key, Cause::InvalidString)),
    }
}

/// An optional plain text field; a present non-string is an error.
pub open spec fn opt_str_spec(fs: Seq<(String, Json)>, key: Seq<char>) -> Result<
    Option<Seq<char>>,
    ErrKindV,
> {
    match lookup(fs, key) {
        None => Ok(None),
        Some(Json::Str(s)) => Ok(Some(s@)),
        Some(_) => Err(ErrKindV::MalformedField(key, Cause::InvalidString)),
    }
}

/// A required name list field.
pub open spec fn req_names_spec(fs: Seq<(String, Json)>, key: Seq<char>) -> Result<
    Seq<NameV>,
    ErrKindV,
> {
    match lookup(fs, key) {
        None => Err(ErrKindV::MissingRequiredField(key)),
        Some(v) => match names_of_json(v) {
            Some(ns) => Ok(ns),
            None => Err(ErrKindV::MalformedField(key, Cause::InvalidNameObject)),
        },
    }
}

/// A required date field.
pub open spec fn req_date_spec(fs: Seq<(String, Json)>, key: Seq<char>) -> Result<
    Date,
    ErrKindV,
> {
    match lookup(fs, key) {
        None => Err(ErrKindV::MissingRequiredField(key)),
        Some(v) => match date_of_json(v) {
            Ok(d) => Ok(d),
            Err(c) => Err(ErrKindV::MalformedField(key, c)),
        },
    }
}

/// An optional page range field.
pub open spec fn opt_page_spec(fs: Seq<(String, Json)>, key: Seq<char>) -> Result<
    Option<Range>,
    ErrKindV,
> {
    match lookup(fs, key) {
        None => Ok(None),
        Some(v) => match page_of_json(v) {
            Ok(r) => Ok(Some(r)),
            Err(c) => Err(ErrKindV::MalformedField(key, c)),
        },
    }
}

/// The short code of the first entry of a required `categories` array.
pub open spec fn req_category_spec(fs: Seq<(String, Json)>) -> Result<Seq<char>, ErrKindV> {
    match lookup(fs, "categories"@) {
        None => Err(ErrKindV::MissingRequiredField("categories"@)),
        Some(Json::Arr(items)) => {
            if items@.len() == 0 {
                Err(ErrKindV::MalformedField("categories"@, Cause::InvalidArxivCategory))
            } else {
                match items@[0] {
                    Json::Str(c) => match arxiv_category(c@) {
                        Some(code) => Ok(code),
                        None => Err(
                            ErrKindV::MalformedField("categories"@, Cause::InvalidArxivCategory),
                        ),
                    },
                    _ => Err(ErrKindV::MalformedField("categories"@, Cause::InvalidArxivCategory)),
                }
            }
        },
        Some(_) => Err(ErrKindV::MalformedField("categories"@, Cause::InvalidArxivCategory)),
    }
}

// ---------------------------------------------------------------------------
// Conversion, spec side: one function per entry variant, reading fields in
// the order the converter does, so the first failing field decides the error.
// ---------------------------------------------------------------------------

/// A journal article record.
pub open spec fn spec_convert_article(id: Seq<char>, fs: Seq<(String, Json)>) -> Result<
    ArticleConv,
    ErrKindV,
> {
    match req_names_spec(fs, "author"@) {
        Err(e) => Err(e),
        Ok(author) => match req_str_spec(fs, "title"@) {
            Err(e) => Err(e),
            Ok(title) => match req_str_spec(fs, "container-title"@) {
                Err(e) => Err(e),
                Ok(journal_title) => match req_date_spec(fs, "issued"@) {
                    Err(e) => Err(e),
                    Ok(date) => match opt_str_spec(fs, "DOI"@) {
                        Err(e) => Err(e),
                        Ok(doi) => match opt_str_spec(fs, "issue"@) {
                            Err(e) => Err(e),
                            Ok(number) => match opt_page_spec(fs, "page"@) {
                                Err(e) => Err(e),
                                Ok(pages) => match opt_str_spec(fs, "volume"@) {
                                    Err(e) => Err(e),
                                    Ok(volume) => Ok(
                                        ArticleConv {
                                            id,
                                            author,
                                            title,
                                            journal_title,
                                            year: date.year,
                                            month: date.month,
                                            doi,
                                            number,
                                            pages,
                                            volume,
                                        },
                                    ),
                                },
                            },
                        },
                    },
                },
            },
        },
    }
}

/// A thesis record: `genre` labels the degree type.
pub open spec fn spec_convert_thesis(id: Seq<char>, fs: Seq<(String, Json)>) -> Result<
    ThesisConv,
    ErrKindV,
> {
    match req_names_spec(fs, "author"@) {
        Err(e) => Err(e),
        Ok(author) => match req_str_spec(fs, "title"@) {
            Err(e) => Err(e),
            Ok(title) => match req_date_spec(fs, "issued"@) {
                Err(e) => Err(e),
                Ok(date) => match req_str_spec(fs, "publisher"@) {
                    Err(e) => Err(e),
                    Ok(institution) => match req_str_spec(fs, "genre"@) {
                        Err(e) => Err(e),
                        Ok(kind) => Ok(
                            ThesisConv {
                                id,
                                author,
                                title,
                                type_: kind,
                                institution,
                                year: date.year,
                                month: date.month,
                            },
                        ),
                    },
                },
            },
        },
    }
}

/// A conference paper record.
pub open spec fn spec_convert_conference_paper(id: Seq<char>, fs: Seq<(String, Json)>) -> Result<
    InProcConv,
    ErrKindV,
> {
    match req_names_spec(fs, "author"@) {
        Err(e) => Err(e),
        Ok(author) => match req_str_spec(fs, "title"@) {
            Err(e) => Err(e),
            Ok(title) => match req_date_spec(fs, "issued"@) {
                Err(e) => Err(e),
                Ok(date) => match req_str_spec(fs, "container-title"@) {
                    Err(e) => Err(e),
                    Ok(book_title) => match opt_str_spec(fs, "DOI"@) {
                        Err(e) => Err(e),
                        Ok(doi) => match opt_str_spec(fs, "publisher"@) {
                            Err(e) => Err(e),
                            Ok(publisher) => match opt_str_spec(fs, "publisher-place"@) {
                                Err(e) => Err(e),
                                Ok(location) => Ok(
                                    InProcConv {
                                        id,
                                        author,
                                        title,
                                        book_title,
                                        year: date.year,
                                        month: date.month,
                                        doi,
                                        publisher,
                                        location,
                                    },
                                ),
                            },
                        },
                    },
                },
            },
        },
    }
}

/// A report record: `genre` labels the report type.
pub open spec fn spec_convert_report(id: Seq<char>, fs: Seq<(String, Json)>) -> Result<
    ReportConv,
    ErrKindV,
> {
    match req_names_spec(fs, "author"@) {
        Err(e) => Err(e),
        Ok(author) => match req_str_spec(fs, "title"@) {
            Err(e) => Err(e),
            Ok(title) => match req_date_spec(fs, "issued"@) {
                Err(e) => Err(e),
                Ok(date) => match req_str_spec(fs, "publisher"@) {
                    Err(e) => Err(e),
                    Ok(institution) => match req_str_spec(fs, "genre"@) {
                        Err(e) => Err(e),
                        Ok(kind) => Ok(
                            ReportConv {
                                id,
                                author,
                                title,
                                type_: kind,
                                institution,
                                year: date.year,
                                month: date.month,
                                number: None,
                                url: None,
                            },
                        ),
                    },
                },
            },
        },
    }
}

/// A working paper record: a report whose type label is fixed.
pub open spec fn spec_convert_working_paper(id: Seq<char>, fs: Seq<(String, Json)>) -> Result<
    ReportConv,
    ErrKindV,
> {
    match req_names_spec(fs, "author"@) {
        Err(e) => Err(e),
        Ok(author) => match req_str_spec(fs, "title"@) {
            Err(e) => Err(e),
            Ok(title) => match req_date_spec(fs, "issued"@) {
                Err(e) => Err(e),
                Ok(date) => match req_str_spec(fs, "publisher"@) {
                    Err(e) => Err(e),
                    Ok(institution) => match opt_str_spec(fs, "number"@) {
                        Err(e) => Err(e),
                        Ok(number) => match opt_str_spec(fs, "url"@) {
                            Err(e) => Err(e),
                            Ok(url) => Ok(
                                ReportConv {
                                    id,
                                    author,
                                    title,
                                    type_: "Working paper"@,
                                    institution,
                                    year: date.year,
                                    month: date.month,
                                    number,
                                    url,
                                },
                            ),
                        },
                    },
                },
            },
        },
    }
}

/// An arXiv preprint record: the eprint identifier is the final segment of
/// the `url`, the primary class the code of the first category.
pub open spec fn spec_convert_arxiv_paper(id: Seq<char>, fs: Seq<(String, Json)>) -> Result<
    ArxivConv,
    ErrKindV,
> {
    match req_names_spec(fs, "author"@) {
        Err(e) => Err(e),
        Ok(author) => match req_str_spec(fs, "title"@) {
            Err(e) => Err(e),
            Ok(title) => match req_date_spec(fs, "issued"@) {
                Err(e) => Err(e),
                Ok(date) => match req_str_spec(fs, "url"@) {
                    Err(e) => Err(e),
                    Ok(url) => match req_category_spec(fs) {
                        Err(e) => Err(e),
                        Ok(eprint_class) => match opt_str_spec(fs, "version"@) {
                            Err(e) => Err(e),
                            Ok(version) => Ok(
                                ArxivConv {
                                    id,
                                    author,
                                    title,
                                    year: date.year,
                                    eprint: tail_segment(url),
                                    eprint_class,
                                    version,
                                },
                            ),
                        },
                    },
                },
            },
        },
    }
}

/// A book record.
pub open spec fn spec_convert_book(id: Seq<char>, fs: Seq<(String, Json)>) -> Result<
    BookConv,
    ErrKindV,
> {
    match req_names_spec(fs, "author"@) {
        Err(e) => Err(e),
        Ok(author) => match req_str_spec(fs, "title"@) {
            Err(e) => Err(e),
            Ok(title) => match req_date_spec(fs, "issued"@) {
                Err(e) => Err(e),
                Ok(date) => match opt_str_spec(fs, "chapter-number"@) {
                    Err(e) => Err(e),
                    Ok(chapter) => match opt_str_spec(fs, "DOI"@) {
                        Err(e) => Err(e),
                        Ok(doi) => match opt_str_spec(fs, "ISBN"@) {
                            Err(e) => Err(e),
                            Ok(isbn) => match opt_str_spec(fs, "publisher"@) {
                                Err(e) => Err(e),
                                Ok(publisher) => match opt_str_spec(fs, "publisher-place"@) {
                                    Err(e) => Err(e),
                                    Ok(location) => match opt_page_spec(fs, "page"@) {
                                        Err(e) => Err(e),
                                        Ok(pages) => Ok(
                                            BookConv {
                                                id,
                                                author,
                                                title,
                                                year: date.year,
                                                chapter,
                                                doi,
                                                isbn,
                                                publisher,
                                                location,
                                                pages,
                                            },
                                        ),
                                    },
                                },
                            },
                        },
                    },
                },
            },
        },
    }
}

/// What a whole record converts to: the `type` field (and, for plain
/// `article` records, the normalized `genre`) picks the variant.
pub open spec fn spec_csl_to_biblatex(fs: Seq<(String, Json)>) -> Result<
    EntryConv,
    ConvertErrorV,
> {
    match lookup(fs, "id"@) {
        None => Err(
            ConvertErrorV { id: None, kind: ErrKindV::MissingRequiredField("id"@) },
        ),
        Some(Json::Str(id)) => {
            match lookup(fs, "type"@) {
                None => Err(
                    ConvertErrorV {
                        id: Some(id@),
                        kind: ErrKindV::MissingRequiredField("type"@),
                    },
                ),
                Some(Json::Str(ty)) => {
                    if ty@ == "article-journal"@ {
                        wrap_conv(spec_convert_article(id@, fs), id@)
                    } else if ty@ == "article"@ {
                        match lookup(fs, "genre"@) {
                            None => Err(
                                ConvertErrorV {
                                    id: Some(id@),
                                    kind: ErrKindV::MissingRequiredField("genre"@),
                                },
                            ),
                            Some(Json::Str(genre)) => {
                                let sub = trimmed(ascii_lower(genre@));
                                if sub == "working paper"@ {
                                    wrap_wp(spec_convert_working_paper(id@, fs), id@)
                                } else if sub == "arxiv"@ {
                                    wrap_arxiv(spec_convert_arxiv_paper(id@, fs), id@)
                                } else {
                                    Err(
                                        ConvertErrorV {
                                            id: Some(id@),
                                            kind: ErrKindV::UnknownArticleSubtype(sub),
                                        },
                                    )
                                }
                            },
                            Some(_) => Err(
                                ConvertErrorV {
                                    id: Some(id@),
                                    kind: ErrKindV::MalformedField(
                                        "genre"@,
                                        Cause::InvalidString,
                                    ),
                                },
                            ),
                        }
                    } else if ty@ == "thesis"@ {
                        wrap_thesis(spec_convert_thesis(id@, fs), id@)
                    } else if ty@ == "paper-conference"@ {
                        wrap_conf(spec_convert_conference_paper(id@, fs), id@)
                    } else if ty@ == "report"@ {
                        wrap_report(spec_convert_report(id@, fs), id@)
                    } else if ty@ == "book"@ {
                        wrap_book(spec_convert_book(id@, fs), id@)
                    } else {
                        Err(
                            ConvertErrorV {
                                id: Some(id@),
                                kind: ErrKindV::UnknownEntryType(ty@),
                            },
                        )
                    }
                },
                Some(_) => Err(
                    ConvertErrorV {
                        id: Some(id@),
                        kind: ErrKindV::MalformedField("type"@, Cause::InvalidString),
                    },
                ),
            }
        },
        Some(_) => Err(
            ConvertErrorV { id: None, kind: ErrKindV::MalformedField("id"@, Cause::InvalidString) },
        ),
    }
}

/// Attach the record id to an article conversion outcome.
pub open spec fn wrap_conv(r: Result<ArticleConv, ErrKindV>, id: Seq<char>) -> Result<
    EntryConv,
    ConvertErrorV,
> {
    match r {
        Ok(v) => Ok(EntryConv::Article(v)),
        Err(k) => Err(ConvertErrorV { id: Some(id), kind: k }),
    }
}

/// Attach the record id to a thesis conversion outcome.
pub open spec fn wrap_thesis(r: Result<ThesisConv, ErrKindV>, id: Seq<char>) -> Result<
    EntryConv,
    ConvertErrorV,
> {
    match r {
        Ok(v) => Ok(EntryConv::Thesis(v)),
        Err(k) => Err(ConvertErrorV { id: Some(id), kind: k }),
    }
}

/// Attach the record id to a conference paper conversion outcome.
pub open spec fn wrap_conf(r: Result<InProcConv, ErrKindV>, id: Seq<char>) -> Result<
    EntryConv,
    ConvertErrorV,
> {
    match r {
        Ok(v) => Ok(EntryConv::InProceedings(v)),
        Err(k) => Err(ConvertErrorV { id: Some(id), kind: k }),
    }
}

/// Attach the record id to a report conversion outcome.
pub open spec fn wrap_report(r: Result<ReportConv, ErrKindV>, id: Seq<char>) -> Result<
    EntryConv,
    ConvertErrorV,
> {
    match r {
        Ok(v) => Ok(EntryConv::Report(v)),
        Err(k) => Err(ConvertErrorV { id: Some(id), kind: k }),
    }
}

/// Attach the record id to a working paper conversion outcome.
pub open spec fn wrap_wp(r: Result<ReportConv, ErrKindV>, id: Seq<char>) -> Result<
    EntryConv,
    ConvertErrorV,
> {
    wrap_report(r, id)
}

/// Attach the record id to an arXiv conversion outcome.
pub open spec fn wrap_arxiv(r: Result<ArxivConv, ErrKindV>, id: Seq<char>) -> Result<
    EntryConv,
    ConvertErrorV,
> {
    match r {
        Ok(v) => Ok(EntryConv::Arxiv(v)),
        Err(k) => Err(ConvertErrorV { id: Some(id), kind: k }),
    }
}

/// Attach the record id to a book conversion outcome.
pub open spec fn wrap_book(r: Result<BookConv, ErrKindV>, id: Seq<char>) -> Result<
    EntryConv,
    ConvertErrorV,
> {
    match r {
        Ok(v) => Ok(EntryConv::Book(v)),
        Err(k) => Err(ConvertErrorV { id: Some(id), kind: k }),
    }
}


// ---------------------------------------------------------------------------
// How a built entry realizes a conversion outcome: every field the converter
// sets holds exactly the converted value, and every other optional field is
// absent.
// ---------------------------------------------------------------------------

/// An [`Article`] realizing an [`ArticleConv`].
pub open spec fn article_conv_matches(a: Article, v: ArticleConv) -> bool {
    &&& a.id@ == v.id
    &&& a.author@ == v.author
    &&& a.title@ == v.title
    &&& a.journal_title@ == v.journal_title
    &&& a.year == v.year
    &&& a.month == v.month
    &&& opt_verb_is(a.doi, v.doi)
    &&& opt_lit_is(a.number, v.number)
    &&& a.pages == v.pages
    &&& opt_lit_is(a.volume, v.volume)
    &&& a.addendum is None
    &&& a.annotator is None
    &&& a.commentator is None
    &&& a.editor is None
    &&& a.eid is None
    &&& a.eprint is None
    &&& a.eprint_class is None
    &&& a.eprint_type is None
    &&& a.issn is None
    &&& a.issue is None
    &&& a.issue_subtitle is None
    &&& a.issue_title is None
    &&& a.journal_subtitle is None
    &&& a.note is None
    &&& a.pubstate is None
    &&& a.series is None
    &&& a.subtitle is None
    &&& a.title_addon is None
    &&& a.translator is None
    &&& a.url is None
    &&& a.url_date is None
    &&& a.version is None
}

/// A [`Thesis`] realizing a [`ThesisConv`].
pub open spec fn thesis_conv_matches(t: Thesis, v: ThesisConv) -> bool {
    &&& t.id@ == v.id
    &&& t.author@ == v.author
    &&& t.title@ == v.title
    &&& t.type_@ == v.type_
    &&& t.institution@ == seq![v.institution]
    &&& t.year == v.year
    &&& t.month == v.month
    &&& t.addendum is None
    &&& t.chapter is None
    &&& t.doi is None
    &&& t.eprint_class is None
    &&& t.eprint_type is None
    &&& t.eprint is None
    &&& t.isbn is None
    &&& t.location is None
    &&& t.note is None
    &&& t.page_total is None
    &&& t.pages is None
    &&& t.pubstate is None
    &&& t.subtitle is None
    &&& t.title_addon is None
    &&& t.url_date is None
    &&& t.url is None
}

/// An [`InProceedings`] realizing an [`InProcConv`].
pub open spec fn inproceedings_conv_matches(p: InProceedings, v: InProcConv) -> bool {
    &&& p.id@ == v.id
    &&& p.author@ == v.author
    &&& p.title@ == v.title
    &&& p.book_title@ == v.book_title
    &&& p.year == v.year
    &&& p.month == v.month
    &&& opt_verb_is(p.doi, v.doi)
    &&& opt_single_lits_is(p.publisher, v.publisher)
    &&& opt_single_lits_is(p.location, v.location)
    &&& p.addendum is None
    &&& p.book_subtitle is None
    &&& p.book_title_addon is None
    &&& p.chapter is None
    &&& p.editor is None
    &&& p.eprint is None
    &&& p.eprint_class is None
    &&& p.eprint_type is None
    &&& p.event_date is None
    &&& p.event_title is None
    &&& p.event_title_addon is None
    &&& p.isbn is None
    &&& p.main_subtitle is None
    &&& p.main_title is None
    &&& p.main_title_addon is None
    &&& p.note is None
    &&& p.number is None
    &&& p.organization is None
    &&& p.pages is None
    &&& p.part is None
    &&& p.pubstate is None
    &&& p.series is None
    &&& p.subtitle is None
    &&& p.title_addon is None
    &&& p.url is None
    &&& p.url_date is None
    &&& p.venue is None
    &&& p.volume is None
    &&& p.volumes is None
}

/// A [`Report`] realizing a [`ReportConv`].
pub open spec fn report_conv_matches(r: Report, v: ReportConv) -> bool {
    &&& r.id@ == v.id
    &&& r.author@ == v.author
    &&& r.title@ == v.title
    &&& r.type_@ == v.type_
    &&& r.institution@ == seq![v.institution]
    &&& r.year == v.year
    &&& r.month == v.month
    &&& opt_lit_is(r.number, v.number)
    &&& opt_uri_is(r.url, v.url)
    &&& r.addendum is None
    &&& r.chapter is None
    &&& r.doi is None
    &&& r.eprint is None
    &&& r.eprint_class is None
    &&& r.eprint_type is None
    &&& r.location is None
    &&& r.pages is None
    &&& r.page_total is None
    &&& r.pubstate is None
    &&& r.subtitle is None
    &&& r.title_addon is None
    &&& r.url_date is None
    &&& r.version is None
}

/// A [`Misc`] realizing an [`ArxivConv`]: the eprint type is the fixed label
/// `arXiv`.
pub open spec fn arxiv_conv_matches(m: Misc, v: ArxivConv) -> bool {
    &&& m.id@ == v.id
    &&& m.author@ == v.author
    &&& m.title@ == v.title
    &&& m.year == v.year
    &&& opt_verb_is(m.eprint, Some(v.eprint))
    &&& opt_lit_is(m.eprint_type, Some("arXiv"@))
    &&& opt_lit_is(m.eprint_class, Some(v.eprint_class))
    &&& opt_lit_is(m.version, v.version)
    &&& m.addendum is None
    &&& m.chapter is None
    &&& m.doi is None
    &&& m.edition is None
    &&& m.isbn is None
    &&& m.location is None
    &&& m.note is None
    &&& m.number is None
    &&& m.organization is None
    &&& m.pages is None
    &&& m.page_total is None
    &&& m.publisher is None
    &&& m.pubstate is None
    &&& m.series is None
    &&& m.subtitle is None
    &&& m.title_addon is None
    &&& m.type_ is None
    &&& m.url is None
    &&& m.url_date is None
    &&& m.version is None == (v.version is None)
}

/// A [`Book`] realizing a [`BookConv`].
pub open spec fn book_conv_matches(b: Book, v: BookConv) -> bool {
    &&& b.id@ == v.id
    &&& b.author@ == v.author
    &&& b.title@ == v.title
    &&& b.year == v.year
    &&& opt_lit_is(b.chapter, v.chapter)
    &&& opt_verb_is(b.doi, v.doi)
    &&& opt_lit_is(b.isbn, v.isbn)
    &&& opt_single_lits_is(b.publisher, v.publisher)
    &&& opt_single_lits_is(b.location, v.location)
    &&& b.pages == v.pages
    &&& b.addendum is None
    &&& b.edition is None
    &&& b.editor is None
    &&& b.note is None
    &&& b.number is None
    &&& b.page_total is None
    &&& b.pubstate is None
    &&& b.series is None
    &&& b.subtitle is None
    &&& b.title_addon is None
    &&& b.url is None
    &&& b.url_date is None
    &&& b.volume is None
    &&& b.volumes is None
}

/// An [`Entry`] realizing an [`EntryConv`], variant by variant.
pub open spec fn entry_conv_matches(e: Entry, v: EntryConv) -> bool {
    match (e, v) {
        (Entry::Article(a), EntryConv::Article(av)) => article_conv_matches(a, av),
        (Entry::Thesis(t), EntryConv::Thesis(tv)) => thesis_conv_matches(t, tv),
        (Entry::InProceedings(p), EntryConv::InProceedings(pv)) => inproceedings_conv_matches(
            p,
            pv,
        ),
        (Entry::Report(r), EntryConv::Report(rv)) => report_conv_matches(r, rv),
        (Entry::Misc(m), EntryConv::Arxiv(mv)) => arxiv_conv_matches(m, mv),
        (Entry::Book(b), EntryConv::Book(bv)) => book_conv_matches(b, bv),
        _ => false,
    }
}

// ---------------------------------------------------------------------------
// Field extraction, exec side.
// ---------------------------------------------------------------------------

/// A field name as an owned string.
fn field_name(key: &str) -> (r: String)
    ensures
        r@ == key@,
{
    String::from_str(key)
}

/// Take a required plain text field.
fn take_string_field(rec: &CslRecord, key: &str) -> (r: Result<String, ConvertErrorKind>)
    ensures
        match r {
            Ok(s) => req_str_spec(rec.fields@, key@) == Ok::<Seq<char>, ErrKindV>(s@),
            Err(e) => req_str_spec(rec.fields@, key@) == Err::<Seq<char>, ErrKindV>(e@),
        },
{
    match lookup_field(&rec.fields, key) {
        None => Err(ConvertErrorKind::MissingRequiredField(field_name(key))),
        Some(Json::Str(s)) => Ok(s.clone()),
        Some(_) => Err(ConvertErrorKind::MalformedField(field_name(key), Cause::InvalidString)),
    }
}

/// Take an optional plain text field; a present non-string is an error.
fn take_opt_string_field(rec: &CslRecord, key: &str) -> (r: Result<
    Option<String>,
    ConvertErrorKind,
>)
    ensures
        match r {
            Ok(None) => opt_str_spec(rec.fields@, key@) == Ok::<Option<Seq<char>>, ErrKindV>(None),
            Ok(Some(s)) => opt_str_spec(rec.fields@, key@) == Ok::<Option<Seq<char>>, ErrKindV>(
                Some(s@),
            ),
            Err(e) => opt_str_spec(rec.fields@, key@) == Err::<Option<Seq<char>>, ErrKindV>(e@),
        },
{
    match lookup_field(&rec.fields, key) {
        None => Ok(None),
        Some(Json::Str(s)) => Ok(Some(s.clone())),
        Some(_) => Err(ConvertErrorKind::MalformedField(field_name(key), Cause::InvalidString)),
    }
}

/// Take a required name list field.
fn take_names_field(rec: &CslRecord, key: &str) -> (r: Result<List<Name>, ConvertErrorKind>)
    ensures
        match r {
            Ok(l) => req_names_spec(rec.fields@, key@) == Ok::<Seq<NameV>, ErrKindV>(l@),
            Err(e) => req_names_spec(rec.fields@, key@) == Err::<Seq<NameV>, ErrKindV>(e@),
        },
{
    match lookup_field(&rec.fields, key) {
        None => Err(ConvertErrorKind::MissingRequiredField(field_name(key))),
        Some(v) => match convert_name_list(v) {
            Ok(l) => Ok(l),
            Err(c) => Err(ConvertErrorKind::MalformedField(field_name(key), c)),
        },
    }
}

/// Take a required date field.
fn take_date_field(rec: &CslRecord, key: &str) -> (r: Result<Date, ConvertErrorKind>)
    ensures
        match r {
            Ok(d) => req_date_spec(rec.fields@, key@) == Ok::<Date, ErrKindV>(d),
            Err(e) => req_date_spec(rec.fields@, key@) == Err::<Date, ErrKindV>(e@),
        },
{
    match lookup_field(&rec.fields, key) {
        None => Err(ConvertErrorKind::MissingRequiredField(field_name(key))),
        Some(v) => match convert_date(v) {
            Ok(d) => Ok(d),
            Err(c) => Err(ConvertErrorKind::MalformedField(field_name(key), c)),
        },
    }
}

/// Take an optional page range field.
fn take_opt_page_field(rec: &CslRecord, key: &str) -> (r: Result<Option<Range>, ConvertErrorKind>)
    ensures
        match r {
            Ok(o) => opt_page_spec(rec.fields@, key@) == Ok::<Option<Range>, ErrKindV>(o),
            Err(e) => opt_page_spec(rec.fields@, key@) == Err::<Option<Range>, ErrKindV>(e@),
        },
{
    match lookup_field(&rec.fields, key) {
        None => Ok(None),
        Some(v) => match convert_page_range(v) {
            Ok(rg) => Ok(Some(rg)),
            Err(c) => Err(ConvertErrorKind::MalformedField(field_name(key), c)),
        },
    }
}

/// Take the short code of the first entry of the required `categories`
/// array.
fn take_category_field(rec: &CslRecord) -> (r: Result<String, ConvertErrorKind>)
    ensures
        match r {
            Ok(s) => req_category_spec(rec.fields@) == Ok::<Seq<char>, ErrKindV>(s@),
            Err(e) => req_category_spec(rec.fields@) == Err::<Seq<char>, ErrKindV>(e@),
        },
{
    match lookup_field(&rec.fields, "categories") {
        None => Err(ConvertErrorKind::MissingRequiredField(field_name("categories"))),
        Some(Json::Arr(items)) => {
            if items.len() == 0 {
                return Err(
                    ConvertErrorKind::MalformedField(
                        field_name("categories"),
                        Cause::InvalidArxivCategory,
                    ),
                );
            }
            match &items[0] {
                Json::Str(c) => match parse_arxiv_category(str_of(c)) {
                    Ok(code) => Ok(code),
                    Err(_) => Err(
                        ConvertErrorKind::MalformedField(
                            field_name("categories"),
                            Cause::InvalidArxivCategory,
                        ),
                    ),
                },
                _ => Err(
                    ConvertErrorKind::MalformedField(
                        field_name("categories"),
                        Cause::InvalidArxivCategory,
                    ),
                ),
            }
        },
        Some(_) => Err(
            ConvertErrorKind::MalformedField(field_name("categories"), Cause::InvalidArxivCategory),
        ),
    }
}

// ---------------------------------------------------------------------------
// Conversion, exec side.
// ---------------------------------------------------------------------------

/// Convert a journal article record.
pub fn convert_article(id: String, rec: &CslRecord) -> (r: Result<Article, ConvertErrorKind>)
    ensures
        match r {
            Ok(a) => spec_convert_article(id@, rec.fields@) matches Ok(v) && article_conv_matches(
                a,
                v,
            ),
            Err(e) => spec_convert_article(id@, rec.fields@) matches Err(k) && k == e@,
        },
{
    let author = match take_names_field(rec, "author") {
        Ok(v) => v,
        Err(e) => {
            return Err(e);
        },
    };
    let title = match take_string_field(rec, "title") {
        Ok(v) => v,
        Err(e) => {
            return Err(e);
        },
    };
    let journal_title = match take_string_field(rec, "container-title") {
        Ok(v) => v,
        Err(e) => {
            return Err(e);
        },
    };
    let date = match take_date_field(rec, "issued") {
        Ok(v) => v,
        Err(e) => {
            return Err(e);
        },
    };
    let mut a = Article::new(id, author, Literal(title), Literal(journal_title), date.year);
    a.month = date.month;
    a.doi = match take_opt_string_field(rec, "DOI") {
        Ok(None) => None,
        Ok(Some(s)) => Some(Verbatim(s)),
        Err(e) => {
            return Err(e);
        },
    };
    a.number = match take_opt_string_field(rec, "issue") {
        Ok(None) => None,
        Ok(Some(s)) => Some(Literal(s)),
        Err(e) => {
            return Err(e);
        },
    };
    a.pages = match take_opt_page_field(rec, "page") {
        Ok(o) => o,
        Err(e) => {
            return Err(e);
        },
    };
    a.volume = match take_opt_string_field(rec, "volume") {
        Ok(None) => None,
        Ok(Some(s)) => Some(Literal(s)),
        Err(e) => {
            return Err(e);
        },
    };
    Ok(a)
}

/// Convert a thesis record.
pub fn convert_thesis(id: String, rec: &CslRecord) -> (r: Result<Thesis, ConvertErrorKind>)
    ensures
        match r {
            Ok(t) => spec_convert_thesis(id@, rec.fields@) matches Ok(v) && thesis_conv_matches(
                t,
                v,
            ),
            Err(e) => spec_convert_thesis(id@, rec.fields@) matches Err(k) && k == e@,
        },
{
    let author = match take_names_field(rec, "author") {
        Ok(v) => v,
        Err(e) => {
            return Err(e);
        },
    };
    let title = match take_string_field(rec, "title") {
        Ok(v) => v,
        Err(e) => {
            return Err(e);
        },
    };
    let date = match take_date_field(rec, "issued") {
        Ok(v) => v,
        Err(e) => {
            return Err(e);
        },
    };
    let inst = match take_string_field(rec, "publisher") {
        Ok(v) => v,
        Err(e) => {
            return Err(e);
        },
    };
    let kind = match take_string_field(rec, "genre") {
        Ok(v) => v,
        Err(e) => {
            return Err(e);
        },
    };
    let ghost inst_view = inst@;
    let institution = List::singleton(Literal(inst));
    proof {
        assert(institution@ =~= seq![inst_view]);
    }
    let mut t = Thesis::new(id, author, Literal(title), Literal(kind), institution, date.year);
    t.month = date.month;
    Ok(t)
}

/// Convert a conference paper record.
pub fn convert_conference_paper(id: String, rec: &CslRecord) -> (r: Result<
    InProceedings,
    ConvertErrorKind,
>)
    ensures
        match r {
            Ok(p) => spec_convert_conference_paper(id@, rec.fields@) matches Ok(v)
                && inproceedings_conv_matches(p, v),
            Err(e) => spec_convert_conference_paper(id@, rec.fields@) matches Err(k) && k == e@,
        },
{
    let author = match take_names_field(rec, "author") {
        Ok(v) => v,
        Err(e) => {
            return Err(e);
        },
    };
    let title = match take_string_field(rec, "title") {
        Ok(v) => v,
        Err(e) => {
            return Err(e);
        },
    };
    let date = match take_date_field(rec, "issued") {
        Ok(v) => v,
        Err(e) => {
            return Err(e);
        },
    };
    let book_title = match take_string_field(rec, "container-title") {
        Ok(v) => v,
        Err(e) => {
            return Err(e);
        },
    };
    let mut p = InProceedings::new(id, author, Literal(title), Literal(book_title), date.year);
    p.month = date.month;
    p.doi = match take_opt_string_field(rec, "DOI") {
        Ok(None) => None,
        Ok(Some(s)) => Some(Verbatim(s)),
        Err(e) => {
            return Err(e);
        },
    };
    p.publisher = match take_opt_string_field(rec, "publisher") {
        Ok(None) => None,
        Ok(Some(s)) => {
            let ghost sv = s@;
            let l = List::singleton(Literal(s));
            proof {
                assert(l@ =~= seq![sv]);
            }
            Some(l)
        },
        Err(e) => {
            return Err(e);
        },
    };
    p.location = match take_opt_string_field(rec, "publisher-place") {
        Ok(None) => None,
        Ok(Some(s)) => {
            let ghost sv = s@;
            let l = List::singleton(Literal(s));
            proof {
                assert(l@ =~= seq![sv]);
            }
            Some(l)
        },
        Err(e) => {
            return Err(e);
        },
    };
    Ok(p)
}

/// Convert a report record.
pub fn convert_report(id: String, rec: &CslRecord) -> (r: Result<Report, ConvertErrorKind>)
    ensures
        match r {
            Ok(t) => spec_convert_report(id@, rec.fields@) matches Ok(v) && report_conv_matches(
                t,
                v,
            ),
            Err(e) => spec_convert_report(id@, rec.fields@) matches Err(k) && k == e@,
        },
{
    let author = match take_names_field(rec, "author") {
        Ok(v) => v,
        Err(e) => {
            return Err(e);
        },
    };
    let title = match take_string_field(rec, "title") {
        Ok(v) => v,
        Err(e) => {
            return Err(e);
        },
    };
    let date = match take_date_field(rec, "issued") {
        Ok(v) => v,
        Err(e) => {
            return Err(e);
        },
    };
    let inst = match take_string_field(rec, "publisher") {
        Ok(v) => v,
        Err(e) => {
            return Err(e);
        },
    };
    let kind = match take_string_field(rec, "genre") {
        Ok(v) => v,
        Err(e) => {
            return Err(e);
        },
    };
    let ghost inst_view = inst@;
    let institution = List::singleton(Literal(inst));
    proof {
        assert(institution@ =~= seq![inst_view]);
    }
    let mut t = Report::new(id, author, Literal(title), Literal(kind), institution, date.year);
    t.month = date.month;
    Ok(t)
}

/// Convert a working paper record: a report whose type label is the fixed
/// text `Working paper`.
pub fn convert_working_paper(id: String, rec: &CslRecord) -> (r: Result<
    Report,
    ConvertErrorKind,
>)
    ensures
        match r {
            Ok(t) => spec_convert_working_paper(id@, rec.fields@) matches Ok(v)
                && report_conv_matches(t, v),
            Err(e) => spec_convert_working_paper(id@, rec.fields@) matches Err(k) && k == e@,
        },
{
    let author = match take_names_field(rec, "author") {
        Ok(v) => v,
        Err(e) => {
            return Err(e);
        },
    };
    let title = match take_string_field(rec, "title") {
        Ok(v) => v,
        Err(e) => {
            return Err(e);
        },
    };
    let date = match take_date_field(rec, "issued") {
        Ok(v) => v,
        Err(e) => {
            return Err(e);
        },
    };
    let inst = match take_string_field(rec, "publisher") {
        Ok(v) => v,
        Err(e) => {
            return Err(e);
        },
    };
    let ghost inst_view = inst@;
    let institution = List::singleton(Literal(inst));
    proof {
        assert(institution@ =~= seq![inst_view]);
    }
    let kind = String::from_str("Working paper");
    let mut t = Report::new(id, author, Literal(title), Literal(kind), institution, date.year);
    t.month = date.month;
    t.number = match take_opt_string_field(rec, "number") {
        Ok(None) => None,
        Ok(Some(s)) => Some(Literal(s)),
        Err(e) => {
            return Err(e);
        },
    };
    t.url = match take_opt_string_field(rec, "url") {
        Ok(None) => None,
        Ok(Some(s)) => Some(Uri(s)),
        Err(e) => {
            return Err(e);
        },
    };
    Ok(t)
}

/// Convert an arXiv preprint record.
pub fn convert_arxiv_paper(id: String, rec: &CslRecord) -> (r: Result<Misc, ConvertErrorKind>)
    ensures
        match r {
            Ok(m) => spec_convert_arxiv_paper(id@, rec.fields@) matches Ok(v)
                && arxiv_conv_matches(m, v),
            Err(e) => spec_convert_arxiv_paper(id@, rec.fields@) matches Err(k) && k == e@,
        },
{
    let author = match take_names_field(rec, "author") {
        Ok(v) => v,
        Err(e) => {
            return Err(e);
        },
    };
    let title = match take_string_field(rec, "title") {
        Ok(v) => v,
        Err(e) => {
            return Err(e);
        },
    };
    let date = match take_date_field(rec, "issued") {
        Ok(v) => v,
        Err(e) => {
            return Err(e);
        },
    };
    let url = match take_string_field(rec, "url") {
        Ok(v) => v,
        Err(e) => {
            return Err(e);
        },
    };
    let mut m = Misc::new(id, author, Literal(title), date.year);
    let arxiv_id = url_tail_segment(&url);
    m.eprint = Some(Verbatim(chars_to_string(&arxiv_id)));
    m.eprint_type = Some(Literal(String::from_str("arXiv")));
    let category = match take_category_field(rec) {
        Ok(v) => v,
        Err(e) => {
            return Err(e);
        },
    };
    m.eprint_class = Some(Literal(category));
    m.version = match take_opt_string_field(rec, "version") {
        Ok(None) => None,
        Ok(Some(s)) => Some(Literal(s)),
        Err(e) => {
            return Err(e);
        },
    };
    Ok(m)
}

/// Convert a book record.
pub fn convert_book(id: String, rec: &CslRecord) -> (r: Result<Book, ConvertErrorKind>)
    ensures
        match r {
            Ok(b) => spec_convert_book(id@, rec.fields@) matches Ok(v) && book_conv_matches(b, v),
            Err(e) => spec_convert_book(id@, rec.fields@) matches Err(k) && k == e@,
        },
{
    let author = match take_names_field(rec, "author") {
        Ok(v) => v,
        Err(e) => {
            return Err(e);
        },
    };
    let title = match take_string_field(rec, "title") {
        Ok(v) => v,
        Err(e) => {
            return Err(e);
        },
    };
    let date = match take_date_field(rec, "issued") {
        Ok(v) => v,
        Err(e) => {
            return Err(e);
        },
    };
    let mut b = Book::new(id, author, Literal(title), date.year);
    b.chapter = match take_opt_string_field(rec, "chapter-number") {
        Ok(None) => None,
        Ok(Some(s)) => Some(Literal(s)),
        Err(e) => {
            return Err(e);
        },
    };
    b.doi = match take_opt_string_field(rec, "DOI") {
        Ok(None) => None,
        Ok(Some(s)) => Some(Verbatim(s)),
        Err(e) => {
            return Err(e);
        },
    };
    b.isbn = match take_opt_string_field(rec, "ISBN") {
        Ok(None) => None,
        Ok(Some(s)) => Some(Literal(s)),
        Err(e) => {
            return Err(e);
        },
    };
    b.publisher = match take_opt_string_field(rec, "publisher") {
        Ok(None) => None,
        Ok(Some(s)) => {
            let ghost sv = s@;
            let l = List::singleton(Literal(s));
            proof {
                assert(l@ =~= seq![sv]);
            }
            Some(l)
        },
        Err(e) => {
            return Err(e);
        },
    };
    b.location = match take_opt_string_field(rec, "publisher-place") {
        Ok(None) => None,
        Ok(Some(s)) => {
            let ghost sv = s@;
            let l = List::singleton(Literal(s));
            proof {
                assert(l@ =~= seq![sv]);
            }
            Some(l)
        },
        Err(e) => {
            return Err(e);
        },
    };
    b.pages = match take_opt_page_field(rec, "page") {
        Ok(o) => o,
        Err(e) => {
            return Err(e);
        },
    };
    Ok(b)
}

/// Convert one citation record into a typed entry, dispatching on its
/// `type` field (and, for plain `article` records, on the lower-cased,
/// trimmed `genre`).  A failure names the offending field and carries the
/// record id once that is known.
pub fn csl_to_biblatex(rec: &CslRecord) -> (r: Result<Entry, ConvertError>)
    ensures
        match r {
            Ok(e) => spec_csl_to_biblatex(rec.fields@) matches Ok(v) && entry_conv_matches(e, v),
            Err(err) => spec_csl_to_biblatex(rec.fields@) matches Err(ev) && err@ == ev,
        },
{
    let id = match lookup_field(&rec.fields, "id") {
        None => {
            return Err(
                ConvertError {
                    id: None,
                    kind: ConvertErrorKind::MissingRequiredField(field_name("id")),
                },
            );
        },
        Some(Json::Str(s)) => s.clone(),
        Some(_) => {
            return Err(
                ConvertError {
                    id: None,
                    kind: ConvertErrorKind::MalformedField(field_name("id"), Cause::InvalidString),
                },
            );
        },
    };
    let ty = match lookup_field(&rec.fields, "type") {
        None => {
            return Err(
                ConvertError {
                    id: Some(id),
                    kind: ConvertErrorKind::MissingRequiredField(field_name("type")),
                },
            );
        },
        Some(Json::Str(s)) => s.clone(),
        Some(_) => {
            return Err(
                ConvertError {
                    id: Some(id),
                    kind: ConvertErrorKind::MalformedField(
                        field_name("type"),
                        Cause::InvalidString,
                    ),
                },
            );
        },
    };
    if str_eq(str_of(&ty), "article-journal") {
        match convert_article(id.clone(), rec) {
            Ok(a) => Ok(Entry::Article(a)),
            Err(k) => Err(ConvertError { id: Some(id), kind: k }),
        }
    } else if str_eq(str_of(&ty), "article") {
        let genre = match lookup_field(&rec.fields, "genre") {
            None => {
                return Err(
                    ConvertError {
                        id: Some(id),
                        kind: ConvertErrorKind::MissingRequiredField(field_name("genre")),
                    },
                );
            },
            Some(Json::Str(s)) => s.clone(),
            Some(_) => {
                return Err(
                    ConvertError {
                        id: Some(id),
                        kind: ConvertErrorKind::MalformedField(
                            field_name("genre"),
                            Cause::InvalidString,
                        ),
                    },
                );
            },
        };
        let genre_chars = str_chars(str_of(&genre));
        let sub = lower_trim(&genre_chars);
        if chars_eq_str(&sub, "working paper") {
            match convert_working_paper(id.clone(), rec) {
                Ok(t) => Ok(Entry::Report(t)),
                Err(k) => Err(ConvertError { id: Some(id), kind: k }),
            }
        } else if chars_eq_str(&sub, "arxiv") {
            match convert_arxiv_paper(id.clone(), rec) {
                Ok(m) => Ok(Entry::Misc(m)),
                Err(k) => Err(ConvertError { id: Some(id), kind: k }),
            }
        } else {
            Err(
                ConvertError {
                    id: Some(id),
                    kind: ConvertErrorKind::UnknownArticleSubtype(chars_to_string(&sub)),
                },
            )
        }
    } else if str_eq(str_of(&ty), "thesis") {
        match convert_thesis(id.clone(), rec) {
            Ok(t) => Ok(Entry::Thesis(t)),
            Err(k) => Err(ConvertError { id: Some(id), kind: k }),
        }
    } else if str_eq(str_of(&ty), "paper-conference") {
        match convert_conference_paper(id.clone(), rec) {
            Ok(p) => Ok(Entry::InProceedings(p)),
            Err(k) => Err(ConvertError { id: Some(id), kind: k }),
        }
    } else if str_eq(str_of(&ty), "report") {
        match convert_report(id.clone(), rec) {
            Ok(t) => Ok(Entry::Report(t)),
            Err(k) => Err(ConvertError { id: Some(id), kind: k }),
        }
    } else if str_eq(str_of(&ty), "book") {
        match convert_book(id.clone(), rec) {
            Ok(b) => Ok(Entry::Book(b)),
            Err(k) => Err(ConvertError { id: Some(id), kind: k }),
        }
    } else {
        Err(ConvertError { id: Some(id), kind: ConvertErrorKind::UnknownEntryType(ty) })
    }
}


/// A record lacking an `author` field fails with a missing-field error
/// naming `author`, whichever recognized entry type it dispatches to: every
/// variant demands an author before anything else.
#[verifier::rlimit(100)]
pub proof fn lemma_missing_author(
    fs: Seq<(String, Json)>,
    id: String,
    ty: String,
    genre: String,
)
    requires
        lookup(fs, "id"@) == Some(Json::Str(id)),
        lookup(fs, "type"@) == Some(Json::Str(ty)),
        ty@ == "article-journal"@ || ty@ == "thesis"@ || ty@ == "paper-conference"@ || ty@
            == "report"@ || ty@ == "book"@ || (ty@ == "article"@ && lookup(fs, "genre"@) == Some(
            Json::Str(genre),
        ) && (trimmed(ascii_lower(genre@)) == "working paper"@ || trimmed(ascii_lower(genre@))
            == "arxiv"@)),
        lookup(fs, "author"@) is None,
    ensures
        spec_csl_to_biblatex(fs) == Err::<EntryConv, ConvertErrorV>(
            ConvertErrorV {
                id: Some(id@),
                kind: ErrKindV::MissingRequiredField("author"@),
            },
        ),
{
    reveal_strlit("article-journal");
    reveal_strlit("article");
    reveal_strlit("thesis");
    reveal_strlit("paper-conference");
    reveal_strlit("report");
    reveal_strlit("book");
    reveal_strlit("working paper");
    reveal_strlit("arxiv");
    let author_err = ErrKindV::MissingRequiredField("author"@);
    let top_err = Err::<EntryConv, ConvertErrorV>(
        ConvertErrorV { id: Some(id@), kind: author_err },
    );
    // the recognized type labels are pairwise distinct
    assert("article-journal"@.len() == 15);
    assert("article"@.len() == 7);
    assert("thesis"@.len() == 6);
    assert("paper-conference"@.len() == 16);
    assert("report"@.len() == 6);
    assert("book"@.len() == 4);
    assert("thesis"@[0] == 't');
    assert("report"@[0] == 'r');
    assert(req_names_spec(fs, "author"@) == Err::<Seq<NameV>, ErrKindV>(author_err));
    if ty@ == "article-journal"@ {
        assert(spec_convert_article(id@, fs) == Err::<ArticleConv, ErrKindV>(author_err));
        assert(spec_csl_to_biblatex(fs) == top_err);
    } else if ty@ == "thesis"@ {
        assert(spec_convert_thesis(id@, fs) == Err::<ThesisConv, ErrKindV>(author_err));
        assert(spec_csl_to_biblatex(fs) == top_err);
    } else if ty@ == "paper-conference"@ {
        assert(spec_convert_conference_paper(id@, fs) == Err::<InProcConv, ErrKindV>(author_err));
        assert(spec_csl_to_biblatex(fs) == top_err);
    } else if ty@ == "report"@ {
        assert(ty@ != "thesis"@);
        assert(spec_convert_report(id@, fs) == Err::<ReportConv, ErrKindV>(author_err));
        assert(spec_csl_to_biblatex(fs) == top_err);
    } else if ty@ == "book"@ {
        assert(spec_convert_book(id@, fs) == Err::<BookConv, ErrKindV>(author_err));
        assert(spec_csl_to_biblatex(fs) == top_err);
    } else {
        assert(ty@ == "article"@);
        if trimmed(ascii_lower(genre@)) == "working paper"@ {
            assert(spec_convert_working_paper(id@, fs) == Err::<ReportConv, ErrKindV>(author_err));
            assert(spec_csl_to_biblatex(fs) == top_err);
        } else {
            assert(spec_convert_arxiv_paper(id@, fs) == Err::<ArxivConv, ErrKindV>(author_err));
            assert(spec_csl_to_biblatex(fs) == top_err);
        }
    }
}

} // verus!
