//! The bibliographic entry model: a closed set of entry variants, each with
//! a fixed schema of required and optional fields, and the renderer that
//! serializes an entry into one BibLaTeX stanza.
//!
//! Fields render in declared order: required fields first, unconditionally,
//! then every optional field that is present.  Each field internally named
//! with an underscore or camel-cased word maps to its BibLaTeX key through
//! the fixed remapping baked into the renderers below (for example
//! `journal_title` renders under the key `journaltitle`, `type_` under
//! `type`).

use vstd::prelude::*;

use crate::escape::{escape_failure, EscapeError};
use crate::text::{chars_to_string, push_i32_decimal, push_str_chars, str_chars};
use crate::types::{
    date_text, lits_err, lits_text, names_err, names_text, pubstate_text, push_date, push_literal,
    push_lits, push_names, push_pubstate, push_range, push_verbatim, range_text, Date, Int, List,
    Literal, Name, PubState, Range, Uri, Verbatim,
};
use crate::escape::escaped_text;

verus! {

/// The spec-level value of one rendered field.
pub enum FieldV {
    Lit(Seq<char>),
    Verb(Seq<char>),
    Link(Seq<char>),
    Num(int),
    When(Date),
    Pages(Range),
    People(Seq<crate::types::NameV>),
    Texts(Seq<Seq<char>>),
    State(PubState),
}

/// The text a field value renders to.
pub open spec fn fieldv_text(v: FieldV) -> Seq<char> {
    match v {
        FieldV::Lit(s) => escaped_text(s),
        FieldV::Verb(s) => s,
        FieldV::Link(s) => s,
        FieldV::Num(n) => crate::text::dec_int(n),
        FieldV::When(d) => date_text(d),
        FieldV::Pages(r) => range_text(r),
        FieldV::People(ns) => names_text(ns),
        FieldV::Texts(ts) => lits_text(ts),
        FieldV::State(p) => pubstate_text(p),
    }
}

/// The first escaping failure inside a field value, if any.
pub open spec fn fieldv_err(v: FieldV) -> Option<EscapeError> {
    match v {
        FieldV::Lit(s) => escape_failure(s),
        FieldV::People(ns) => names_err(ns),
        FieldV::Texts(ts) => lits_err(ts),
        _ => None,
    }
}

/// One rendered field assignment line.
pub open spec fn field_line(key: Seq<char>, v: FieldV) -> Seq<char> {
    "    "@ + key + " = {"@ + fieldv_text(v) + "},\n"@
}

/// The line an optional field contributes: nothing when absent.
pub open spec fn opt_line(key: Seq<char>, o: Option<FieldV>) -> Seq<char> {
    match o {
        None => Seq::<char>::empty(),
        Some(v) => field_line(key, v),
    }
}

/// The failure an optional field contributes: none when absent.
pub open spec fn opt_err(o: Option<FieldV>) -> Option<EscapeError> {
    match o {
        None => None,
        Some(v) => fieldv_err(v),
    }
}

/// The first of two optional failures.
pub open spec fn or_err(a: Option<EscapeError>, b: Option<EscapeError>) -> Option<EscapeError> {
    if a is Some {
        a
    } else {
        b
    }
}

/// An optional literal field as a spec field value.
pub open spec fn opt_lit(o: Option<Literal>) -> Option<FieldV> {
    match o {
        None => None,
        Some(l) => Some(FieldV::Lit(l@)),
    }
}

/// An optional verbatim field as a spec field value.
pub open spec fn opt_verb(o: Option<Verbatim>) -> Option<FieldV> {
    match o {
        None => None,
        Some(v) => Some(FieldV::Verb(v@)),
    }
}

/// An optional URI field as a spec field value.
pub open spec fn opt_uri(o: Option<Uri>) -> Option<FieldV> {
    match o {
        None => None,
        Some(u) => Some(FieldV::Link(u@)),
    }
}

/// An optional integer field as a spec field value.
pub open spec fn opt_int(o: Option<Int>) -> Option<FieldV> {
    match o {
        None => None,
        Some(n) => Some(FieldV::Num(n as int)),
    }
}

/// An optional date field as a spec field value.
pub open spec fn opt_date(o: Option<Date>) -> Option<FieldV> {
    match o {
        None => None,
        Some(d) => Some(FieldV::When(d)),
    }
}

/// An optional page-range field as a spec field value.
pub open spec fn opt_range(o: Option<Range>) -> Option<FieldV> {
    match o {
        None => None,
        Some(r) => Some(FieldV::Pages(r)),
    }
}

/// An optional name-list field as a spec field value.
pub open spec fn opt_names(o: Option<List<Name>>) -> Option<FieldV> {
    match o {
        None => None,
        Some(l) => Some(FieldV::People(l@)),
    }
}

/// An optional literal-list field as a spec field value.
pub open spec fn opt_lits(o: Option<List<Literal>>) -> Option<FieldV> {
    match o {
        None => None,
        Some(l) => Some(FieldV::Texts(l@)),
    }
}

/// An optional publication-state field as a spec field value.
pub open spec fn opt_state(o: Option<PubState>) -> Option<FieldV> {
    match o {
        None => None,
        Some(p) => Some(FieldV::State(p)),
    }
}

/// Append a required name-list field line; on failure `out` is unchanged.
fn push_req_names(out: &mut Vec<char>, key: &str, v: &List<Name>) -> (r: Result<(), EscapeError>)
    ensures
        match r {
            Ok(_) => names_err(v@) is None && final(out)@ == old(out)@ + field_line(
                key@,
                FieldV::People(v@),
            ),
            Err(e) => names_err(v@) == Some(e) && final(out)@ == old(out)@,
        },
{
    let mut t: Vec<char> = Vec::new();
    match push_names(&mut t, v) {
        Ok(_) => {},
        Err(e) => {
            return Err(e);
        },
    }
    push_str_chars(out, "    ");
    push_str_chars(out, key);
    push_str_chars(out, " = {");
    out.append(&mut t);
    push_str_chars(out, "},\n");
    assert(out@ =~= old(out)@ + field_line(key@, FieldV::People(v@)));
    Ok(())
}

/// Append a required literal field line; on failure `out` is unchanged.
fn push_req_lit(out: &mut Vec<char>, key: &str, l: &Literal) -> (r: Result<(), EscapeError>)
    ensures
        match r {
            Ok(_) => escape_failure(l@) is None && final(out)@ == old(out)@ + field_line(
                key@,
                FieldV::Lit(l@),
            ),
            Err(e) => escape_failure(l@) == Some(e) && final(out)@ == old(out)@,
        },
{
    let mut t: Vec<char> = Vec::new();
    match push_literal(&mut t, l) {
        Ok(_) => {},
        Err(e) => {
            return Err(e);
        },
    }
    push_str_chars(out, "    ");
    push_str_chars(out, key);
    push_str_chars(out, " = {");
    out.append(&mut t);
    push_str_chars(out, "},\n");
    assert(out@ =~= old(out)@ + field_line(key@, FieldV::Lit(l@)));
    Ok(())
}

/// Append a required literal-list field line; on failure `out` is unchanged.
fn push_req_texts(out: &mut Vec<char>, key: &str, v: &List<Literal>) -> (r: Result<
    (),
    EscapeError,
>)
    ensures
        match r {
            Ok(_) => lits_err(v@) is None && final(out)@ == old(out)@ + field_line(
                key@,
                FieldV::Texts(v@),
            ),
            Err(e) => lits_err(v@) == Some(e) && final(out)@ == old(out)@,
        },
{
    let mut t: Vec<char> = Vec::new();
    match push_lits(&mut t, v) {
        Ok(_) => {},
        Err(e) => {
            return Err(e);
        },
    }
    push_str_chars(out, "    ");
    push_str_chars(out, key);
    push_str_chars(out, " = {");
    out.append(&mut t);
    push_str_chars(out, "},\n");
    assert(out@ =~= old(out)@ + field_line(key@, FieldV::Texts(v@)));
    Ok(())
}

/// Append a required integer field line.
fn push_req_int(out: &mut Vec<char>, key: &str, n: Int)
    ensures
        final(out)@ == old(out)@ + field_line(key@, FieldV::Num(n as int)),
{
    push_str_chars(out, "    ");
    push_str_chars(out, key);
    push_str_chars(out, " = {");
    push_i32_decimal(out, n);
    push_str_chars(out, "},\n");
    assert(out@ =~= old(out)@ + field_line(key@, FieldV::Num(n as int)));
}

/// Append an optional literal field line; on failure `out` is unchanged.
fn push_opt_lit(out: &mut Vec<char>, key: &str, o: &Option<Literal>) -> (r: Result<
    (),
    EscapeError,
>)
    ensures
        match r {
            Ok(_) => opt_err(opt_lit(*o)) is None && final(out)@ == old(out)@ + opt_line(
                key@,
                opt_lit(*o),
            ),
            Err(e) => opt_err(opt_lit(*o)) == Some(e) && final(out)@ == old(out)@,
        },
{
    match o {
        None => {
            assert(out@ =~= out@ + opt_line(key@, opt_lit(*o)));
            Ok(())
        },
        Some(l) => push_req_lit(out, key, l),
    }
}

/// Append an optional name-list field line; on failure `out` is unchanged.
fn push_opt_names(out: &mut Vec<char>, key: &str, o: &Option<List<Name>>) -> (r: Result<
    (),
    EscapeError,
>)
    ensures
        match r {
            Ok(_) => opt_err(opt_names(*o)) is None && final(out)@ == old(out)@ + opt_line(
                key@,
                opt_names(*o),
            ),
            Err(e) => opt_err(opt_names(*o)) == Some(e) && final(out)@ == old(out)@,
        },
{
    match o {
        None => {
            assert(out@ =~= out@ + opt_line(key@, opt_names(*o)));
            Ok(())
        },
        Some(v) => push_req_names(out, key, v),
    }
}

/// Append an optional literal-list field line; on failure `out` is unchanged.
fn push_opt_lits(out: &mut Vec<char>, key: &str, o: &Option<List<Literal>>) -> (r: Result<
    (),
    EscapeError,
>)
    ensures
        match r {
            Ok(_) => opt_err(opt_lits(*o)) is None && final(out)@ == old(out)@ + opt_line(
                key@,
                opt_lits(*o),
            ),
            Err(e) => opt_err(opt_lits(*o)) == Some(e) && final(out)@ == old(out)@,
        },
{
    match o {
        None => {
            assert(out@ =~= out@ + opt_line(key@, opt_lits(*o)));
            Ok(())
        },
        Some(v) => push_req_texts(out, key, v),
    }
}

/// Append an optional verbatim field line.
fn push_opt_verb(out: &mut Vec<char>, key: &str, o: &Option<Verbatim>)
    ensures
        final(out)@ == old(out)@ + opt_line(key@, opt_verb(*o)),
{
    match o {
        None => {
            assert(out@ =~= out@ + opt_line(key@, opt_verb(*o)));
        },
        Some(v) => {
            push_str_chars(out, "    ");
            push_str_chars(out, key);
            push_str_chars(out, " = {");
            push_verbatim(out, &v.0);
            push_str_chars(out, "},\n");
            assert(out@ =~= old(out)@ + opt_line(key@, opt_verb(*o)));
        },
    }
}

/// Append an optional URI field line.
fn push_opt_uri(out: &mut Vec<char>, key: &str, o: &Option<Uri>)
    ensures
        final(out)@ == old(out)@ + opt_line(key@, opt_uri(*o)),
{
    match o {
        None => {
            assert(out@ =~= out@ + opt_line(key@, opt_uri(*o)));
        },
        Some(u) => {
            push_str_chars(out, "    ");
            push_str_chars(out, key);
            push_str_chars(out, " = {");
            push_verbatim(out, &u.0);
            push_str_chars(out, "},\n");
            assert(out@ =~= old(out)@ + opt_line(key@, opt_uri(*o)));
        },
    }
}

/// Append an optional integer field line.
fn push_opt_int(out: &mut Vec<char>, key: &str, o: &Option<Int>)
    ensures
        final(out)@ == old(out)@ + opt_line(key@, opt_int(*o)),
{
    match o {
        None => {
            assert(out@ =~= out@ + opt_line(key@, opt_int(*o)));
        },
        Some(n) => {
            push_str_chars(out, "    ");
            push_str_chars(out, key);
            push_str_chars(out, " = {");
            push_i32_decimal(out, *n);
            push_str_chars(out, "},\n");
            assert(out@ =~= old(out)@ + opt_line(key@, opt_int(*o)));
        },
    }
}

/// Append an optional date field line.
fn push_opt_date(out: &mut Vec<char>, key: &str, o: &Option<Date>)
    ensures
        final(out)@ == old(out)@ + opt_line(key@, opt_date(*o)),
{
    match o {
        None => {
            assert(out@ =~= out@ + opt_line(key@, opt_date(*o)));
        },
        Some(d) => {
            push_str_chars(out, "    ");
            push_str_chars(out, key);
            push_str_chars(out, " = {");
            push_date(out, d);
            push_str_chars(out, "},\n");
            assert(out@ =~= old(out)@ + opt_line(key@, opt_date(*o)));
        },
    }
}

/// Append an optional page-range field line.
fn push_opt_range(out: &mut Vec<char>, key: &str, o: &Option<Range>)
    ensures
        final(out)@ == old(out)@ + opt_line(key@, opt_range(*o)),
{
    match o {
        None => {
            assert(out@ =~= out@ + opt_line(key@, opt_range(*o)));
        },
        Some(rg) => {
            push_str_chars(out, "    ");
            push_str_chars(out, key);
            push_str_chars(out, " = {");
            push_range(out, rg);
            push_str_chars(out, "},\n");
            assert(out@ =~= old(out)@ + opt_line(key@, opt_range(*o)));
        },
    }
}

/// Append an optional publication-state field line.
fn push_opt_state(out: &mut Vec<char>, key: &str, o: &Option<PubState>)
    ensures
        final(out)@ == old(out)@ + opt_line(key@, opt_state(*o)),
{
    match o {
        None => {
            assert(out@ =~= out@ + opt_line(key@, opt_state(*o)));
        },
        Some(p) => {
            push_str_chars(out, "    ");
            push_str_chars(out, key);
            push_str_chars(out, " = {");
            push_pubstate(out, p);
            push_str_chars(out, "},\n");
            assert(out@ =~= old(out)@ + opt_line(key@, opt_state(*o)));
        },
    }
}


/// A journal article.
#[derive(Debug, Clone)]
#[non_exhaustive]
pub struct Article {
    pub id: String,
    pub author: List<Name>,
    pub title: Literal,
    pub journal_title: Literal,
    pub year: Int,
    pub addendum: Option<Literal>,
    pub annotator: Option<List<Name>>,
    pub commentator: Option<List<Name>>,
    pub doi: Option<Verbatim>,
    pub editor: Option<List<Name>>,
    pub eid: Option<Literal>,
    pub eprint: Option<Verbatim>,
    pub eprint_class: Option<Literal>,
    pub eprint_type: Option<Literal>,
    pub issn: Option<Literal>,
    pub issue: Option<Literal>,
    pub issue_subtitle: Option<Literal>,
    pub issue_title: Option<Literal>,
    pub journal_subtitle: Option<Literal>,
    pub month: Option<Int>,
    pub note: Option<Literal>,
    pub number: Option<Literal>,
    pub pages: Option<Range>,
    pub pubstate: Option<PubState>,
    pub series: Option<Literal>,
    pub subtitle: Option<Literal>,
    pub title_addon: Option<Literal>,
    pub translator: Option<List<Name>>,
    pub url: Option<Uri>,
    pub url_date: Option<Date>,
    pub version: Option<Literal>,
    pub volume: Option<Literal>,
}

/// The complete stanza for [`Article`]: the required fields in declared
/// order, then every present optional field in declared order.
pub open spec fn article_text(e: Article) -> Seq<char> {
    "@article{"@
        + e.id@
        + ",\n"@
        + field_line("author"@, FieldV::People(e.author@))
        + field_line("title"@, FieldV::Lit(e.title@))
        + field_line("journaltitle"@, FieldV::Lit(e.journal_title@))
        + field_line("year"@, FieldV::Num(e.year as int))
        + opt_line("addendum"@, opt_lit(e.addendum))
        + opt_line("annotator"@, opt_names(e.annotator))
        + opt_line("commentator"@, opt_names(e.commentator))
        + opt_line("doi"@, opt_verb(e.doi))
        + opt_line("editor"@, opt_names(e.editor))
        + opt_line("eid"@, opt_lit(e.eid))
        + opt_line("eprint"@, opt_verb(e.eprint))
        + opt_line("eprintclass"@, opt_lit(e.eprint_class))
        + opt_line("eprinttype"@, opt_lit(e.eprint_type))
        + opt_line("issn"@, opt_lit(e.issn))
        + opt_line("issue"@, opt_lit(e.issue))
        + opt_line("issuesubtitle"@, opt_lit(e.issue_subtitle))
        + opt_line("issuetitle"@, opt_lit(e.issue_title))
        + opt_line("journalsubtitle"@, opt_lit(e.journal_subtitle))
        + opt_line("month"@, opt_int(e.month))
        + opt_line("note"@, opt_lit(e.note))
        + opt_line("number"@, opt_lit(e.number))
        + opt_line("pages"@, opt_range(e.pages))
        + opt_line("pubstate"@, opt_state(e.pubstate))
        + opt_line("series"@, opt_lit(e.series))
        + opt_line("subtitle"@, opt_lit(e.subtitle))
        + opt_line("titleaddon"@, opt_lit(e.title_addon))
        + opt_line("translator"@, opt_names(e.translator))
        + opt_line("url"@, opt_uri(e.url))
        + opt_line("urldate"@, opt_date(e.url_date))
        + opt_line("version"@, opt_lit(e.version))
        + opt_line("volume"@, opt_lit(e.volume))
        + "}\n"@
}

/// The first escaping failure in [`Article`]'s fields, in field order.
pub open spec fn article_err(e: Article) -> Option<EscapeError> {
    or_err(
        names_err(e.author@),
        or_err(escape_failure(e.title@),
        or_err(escape_failure(e.journal_title@),
        or_err(opt_err(opt_lit(e.addendum)),
        or_err(opt_err(opt_names(e.annotator)),
        or_err(opt_err(opt_names(e.commentator)),
        or_err(opt_err(opt_names(e.editor)),
        or_err(opt_err(opt_lit(e.eid)),
        or_err(opt_err(opt_lit(e.eprint_class)),
        or_err(opt_err(opt_lit(e.eprint_type)),
        or_err(opt_err(opt_lit(e.issn)),
        or_err(opt_err(opt_lit(e.issue)),
        or_err(opt_err(opt_lit(e.issue_subtitle)),
        or_err(opt_err(opt_lit(e.issue_title)),
        or_err(opt_err(opt_lit(e.journal_subtitle)),
        or_err(opt_err(opt_lit(e.note)),
        or_err(opt_err(opt_lit(e.number)),
        or_err(opt_err(opt_lit(e.series)),
        or_err(opt_err(opt_lit(e.subtitle)),
        or_err(opt_err(opt_lit(e.title_addon)),
        or_err(opt_err(opt_names(e.translator)),
        or_err(opt_err(opt_lit(e.version)),
            opt_err(opt_lit(e.volume))))))))))))))))))))))),
    )
}

impl Article {
    /// A new `article` entry holding exactly the required fields;
    /// every optional field starts out `None`.
    pub fn new(id: String, author: List<Name>, title: Literal, journal_title: Literal, year: Int) -> (e: Article)
        ensures
            e.id == id,
            e.author == author,
            e.title == title,
            e.journal_title == journal_title,
            e.year == year,
            e.addendum is None,
            e.annotator is None,
            e.commentator is None,
            e.doi is None,
            e.editor is None,
            e.eid is None,
            e.eprint is None,
            e.eprint_class is None,
            e.eprint_type is None,
            e.issn is None,
            e.issue is None,
            e.issue_subtitle is None,
            e.issue_title is None,
            e.journal_subtitle is None,
            e.month is None,
            e.note is None,
            e.number is None,
            e.pages is None,
            e.pubstate is None,
            e.series is None,
            e.subtitle is None,
            e.title_addon is None,
            e.translator is None,
            e.url is None,
            e.url_date is None,
            e.version is None,
            e.volume is None,
    {
        Article {
            id,
            author,
            title,
            journal_title,
            year,
            addendum: None,
            annotator: None,
            commentator: None,
            doi: None,
            editor: None,
            eid: None,
            eprint: None,
            eprint_class: None,
            eprint_type: None,
            issn: None,
            issue: None,
            issue_subtitle: None,
            issue_title: None,
            journal_subtitle: None,
            month: None,
            note: None,
            number: None,
            pages: None,
            pubstate: None,
            series: None,
            subtitle: None,
            title_addon: None,
            translator: None,
            url: None,
            url_date: None,
            version: None,
            volume: None,
        }
    }

    /// Render this entry as a BibLaTeX stanza, or report the first
    /// escaping failure among its fields.
    pub fn to_biblatex(&self) -> (r: Result<String, EscapeError>)
        ensures
            match r {
                Ok(out) => article_err(*self) is None && out@ == article_text(*self),
                Err(e) => article_err(*self) == Some(e),
            },
    {
        let mut out = str_chars("@article{");
        push_verbatim(&mut out, &self.id);
        push_str_chars(&mut out, ",\n");
        match push_req_names(&mut out, "author", &self.author) {
            Ok(_) => {},
            Err(e) => {
                return Err(e);
            },
        }
        match push_req_lit(&mut out, "title", &self.title) {
            Ok(_) => {},
            Err(e) => {
                return Err(e);
            },
        }
        match push_req_lit(&mut out, "journaltitle", &self.journal_title) {
            Ok(_) => {},
            Err(e) => {
                return Err(e);
            },
        }
        push_req_int(&mut out, "year", self.year);
        match push_opt_lit(&mut out, "addendum", &self.addendum) {
            Ok(_) => {},
            Err(e) => {
                return Err(e);
            },
        }
        match push_opt_names(&mut out, "annotator", &self.annotator) {
            Ok(_) => {},
            Err(e) => {
                return Err(e);
            },
        }
        match push_opt_names(&mut out, "commentator", &self.commentator) {
            Ok(_) => {},
            Err(e) => {
                return Err(e);
            },
        }
        push_opt_verb(&mut out, "doi", &self.doi);
        match push_opt_names(&mut out, "editor", &self.editor) {
            Ok(_) => {},
            Err(e) => {
                return Err(e);
            },
        }
        match push_opt_lit(&mut out, "eid", &self.eid) {
            Ok(_) => {},
            Err(e) => {
                return Err(e);
            },
        }
        push_opt_verb(&mut out, "eprint", &self.eprint);
        match push_opt_lit(&mut out, "eprintclass", &self.eprint_class) {
            Ok(_) => {},
            Err(e) => {
                return Err(e);
            },
        }
        match push_opt_lit(&mut out, "eprinttype", &self.eprint_type) {
            Ok(_) => {},
            Err(e) => {
                return Err(e);
            },
        }
        match push_opt_lit(&mut out, "issn", &self.issn) {
            Ok(_) => {},
            Err(e) => {
                return Err(e);
            },
        }
        match push_opt_lit(&mut out, "issue", &self.issue) {
            Ok(_) => {},
            Err(e) => {
                return Err(e);
            },
        }
        match push_opt_lit(&mut out, "issuesubtitle", &self.issue_subtitle) {
            Ok(_) => {},
            Err(e) => {
                return Err(e);
            },
        }
        match push_opt_lit(&mut out, "issuetitle", &self.issue_title) {
            Ok(_) => {},
            Err(e) => {
                return Err(e);
            },
        }
        match push_opt_lit(&mut out, "journalsubtitle", &self.journal_subtitle) {
            Ok(_) => {},
            Err(e) => {
                return Err(e);
            },
        }
        push_opt_int(&mut out, "month", &self.month);
        match push_opt_lit(&mut out, "note", &self.note) {
            Ok(_) => {},
            Err(e) => {
                return Err(e);
            },
        }
        match push_opt_lit(&mut out, "number", &self.number) {
            Ok(_) => {},
            Err(e) => {
                return Err(e);
            },
        }
        push_opt_range(&mut out, "pages", &self.pages);
        push_opt_state(&mut out, "pubstate", &self.pubstate);
        match push_opt_lit(&mut out, "series", &self.series) {
            Ok(_) => {},
            Err(e) => {
                return Err(e);
            },
        }
        match push_opt_lit(&mut out, "subtitle", &self.subtitle) {
            Ok(_) => {},
            Err(e) => {
                return Err(e);
            },
        }
        match push_opt_lit(&mut out, "titleaddon", &self.title_addon) {
            Ok(_) => {},
            Err(e) => {
                return Err(e);
            },
        }
        match push_opt_names(&mut out, "translator", &self.translator) {
            Ok(_) => {},
            Err(e) => {
                return Err(e);
            },
        }
        push_opt_uri(&mut out, "url", &self.url);
        push_opt_date(&mut out, "urldate", &self.url_date);
        match push_opt_lit(&mut out, "version", &self.version) {
            Ok(_) => {},
            Err(e) => {
                return Err(e);
            },
        }
        match push_opt_lit(&mut out, "volume", &self.volume) {
            Ok(_) => {},
            Err(e) => {
                return Err(e);
            },
        }
        push_str_chars(&mut out, "}\n");
        Ok(chars_to_string(&out))
    }
}

/// An entry built from its required fields alone renders as a stanza
/// holding exactly the required keys, in declared order, and nothing else.
pub proof fn lemma_article_minimal(e: Article)
    requires
        e.addendum is None,
        e.annotator is None,
        e.commentator is None,
        e.doi is None,
        e.editor is None,
        e.eid is None,
        e.eprint is None,
        e.eprint_class is None,
        e.eprint_type is None,
        e.issn is None,
        e.issue is None,
        e.issue_subtitle is None,
        e.issue_title is None,
        e.journal_subtitle is None,
        e.month is None,
        e.note is None,
        e.number is None,
        e.pages is None,
        e.pubstate is None,
        e.series is None,
        e.subtitle is None,
        e.title_addon is None,
        e.translator is None,
        e.url is None,
        e.url_date is None,
        e.version is None,
        e.volume is None,
    ensures
        article_text(e) == "@article{"@
            + e.id@
            + ",\n"@
            + field_line("author"@, FieldV::People(e.author@))
            + field_line("title"@, FieldV::Lit(e.title@))
            + field_line("journaltitle"@, FieldV::Lit(e.journal_title@))
            + field_line("year"@, FieldV::Num(e.year as int))
            + "}\n"@,
{
    assert(article_text(e) =~= "@article{"@
        + e.id@
        + ",\n"@
        + field_line("author"@, FieldV::People(e.author@))
        + field_line("title"@, FieldV::Lit(e.title@))
        + field_line("journaltitle"@, FieldV::Lit(e.journal_title@))
        + field_line("year"@, FieldV::Num(e.year as int))
        + "}\n"@
    );
}

/// A thesis written for an academic degree.
#[derive(Debug, Clone)]
#[non_exhaustive]
pub struct Thesis {
    pub id: String,
    pub author: List<Name>,
    pub title: Literal,
    pub type_: Literal,
    pub institution: List<Literal>,
    pub year: Int,
    pub addendum: Option<Literal>,
    pub chapter: Option<Literal>,
    pub doi: Option<Verbatim>,
    pub eprint_class: Option<Literal>,
    pub eprint_type: Option<Literal>,
    pub eprint: Option<Verbatim>,
    pub isbn: Option<Literal>,
    pub location: Option<List<Literal>>,
    pub month: Option<Int>,
    pub note: Option<Literal>,
    pub page_total: Option<Literal>,
    pub pages: Option<Range>,
    pub pubstate: Option<PubState>,
    pub subtitle: Option<Literal>,
    pub title_addon: Option<Literal>,
    pub url_date: Option<Date>,
    pub url: Option<Uri>,
}

/// The complete stanza for [`Thesis`]: the required fields in declared
/// order, then every present optional field in declared order.
pub open spec fn thesis_text(e: Thesis) -> Seq<char> {
    "@thesis{"@
        + e.id@
        + ",\n"@
        + field_line("author"@, FieldV::People(e.author@))
        + field_line("title"@, FieldV::Lit(e.title@))
        + field_line("type"@, FieldV::Lit(e.type_@))
        + field_line("institution"@, FieldV::Texts(e.institution@))
        + field_line("year"@, FieldV::Num(e.year as int))
        + opt_line("addendum"@, opt_lit(e.addendum))
        + opt_line("chapter"@, opt_lit(e.chapter))
        + opt_line("doi"@, opt_verb(e.doi))
        + opt_line("eprintclass"@, opt_lit(e.eprint_class))
        + opt_line("eprinttype"@, opt_lit(e.eprint_type))
        + opt_line("eprint"@, opt_verb(e.eprint))
        + opt_line("isbn"@, opt_lit(e.isbn))
        + opt_line("location"@, opt_lits(e.location))
        + opt_line("month"@, opt_int(e.month))
        + opt_line("note"@, opt_lit(e.note))
        + opt_line("pagetotal"@, opt_lit(e.page_total))
        + opt_line("pages"@, opt_range(e.pages))
        + opt_line("pubstate"@, opt_state(e.pubstate))
        + opt_line("subtitle"@, opt_lit(e.subtitle))
        + opt_line("titleaddon"@, opt_lit(e.title_addon))
        + opt_line("urldate"@, opt_date(e.url_date))
        + opt_line("url"@, opt_uri(e.url))
        + "}\n"@
}

/// The first escaping failure in [`Thesis`]'s fields, in field order.
pub open spec fn thesis_err(e: Thesis) -> Option<EscapeError> {
    or_err(
        names_err(e.author@),
        or_err(escape_failure(e.title@),
        or_err(escape_failure(e.type_@),
        or_err(lits_err(e.institution@),
        or_err(opt_err(opt_lit(e.addendum)),
        or_err(opt_err(opt_lit(e.chapter)),
        or_err(opt_err(opt_lit(e.eprint_class)),
        or_err(opt_err(opt_lit(e.eprint_type)),
        or_err(opt_err(opt_lit(e.isbn)),
        or_err(opt_err(opt_lits(e.location)),
        or_err(opt_err(opt_lit(e.note)),
        or_err(opt_err(opt_lit(e.page_total)),
        or_err(opt_err(opt_lit(e.subtitle)),
            opt_err(opt_lit(e.title_addon)))))))))))))),
    )
}

impl Thesis {
    /// A new `thesis` entry holding exactly the required fields;
    /// every optional field starts out `None`.
    pub fn new(
        id: String,
        author: List<Name>,
        title: Literal,
        type_: Literal,
        institution: List<Literal>,
        year: Int,
    ) -> (e: Thesis)
        ensures
            e.id == id,
            e.author == author,
            e.title == title,
            e.type_ == type_,
            e.institution == institution,
            e.year == year,
            e.addendum is None,
            e.chapter is None,
            e.doi is None,
            e.eprint_class is None,
            e.eprint_type is None,
            e.eprint is None,
            e.isbn is None,
            e.location is None,
            e.month is None,
            e.note is None,
            e.page_total is None,
            e.pages is None,
            e.pubstate is None,
            e.subtitle is None,
            e.title_addon is None,
            e.url_date is None,
            e.url is None,
    {
        Thesis {
            id,
            author,
            title,
            type_,
            institution,
            year,
            addendum: None,
            chapter: None,
            doi: None,
            eprint_class: None,
            eprint_type: None,
            eprint: None,
            isbn: None,
            location: None,
            month: None,
            note: None,
            page_total: None,
            pages: None,
            pubstate: None,
            subtitle: None,
            title_addon: None,
            url_date: None,
            url: None,
        }
    }

    /// Render this entry as a BibLaTeX stanza, or report the first
    /// escaping failure among its fields.
    pub fn to_biblatex(&self) -> (r: Result<String, EscapeError>)
        ensures
            match r {
                Ok(out) => thesis_err(*self) is None && out@ == thesis_text(*self),
                Err(e) => thesis_err(*self) == Some(e),
            },
    {
        let mut out = str_chars("@thesis{");
        push_verbatim(&mut out, &self.id);
        push_str_chars(&mut out, ",\n");
        match push_req_names(&mut out, "author", &self.author) {
            Ok(_) => {},
            Err(e) => {
                return Err(e);
            },
        }
        match push_req_lit(&mut out, "title", &self.title) {
            Ok(_) => {},
            Err(e) => {
                return Err(e);
            },
        }
        match push_req_lit(&mut out, "type", &self.type_) {
            Ok(_) => {},
            Err(e) => {
                return Err(e);
            },
        }
        match push_req_texts(&mut out, "institution", &self.institution) {
            Ok(_) => {},
            Err(e) => {
                return Err(e);
            },
        }
        push_req_int(&mut out, "year", self.year);
        match push_opt_lit(&mut out, "addendum", &self.addendum) {
            Ok(_) => {},
            Err(e) => {
                return Err(e);
            },
        }
        match push_opt_lit(&mut out, "chapter", &self.chapter) {
            Ok(_) => {},
            Err(e) => {
                return Err(e);
            },
        }
        push_opt_verb(&mut out, "doi", &self.doi);
        match push_opt_lit(&mut out, "eprintclass", &self.eprint_class) {
            Ok(_) => {},
            Err(e) => {
                return Err(e);
            },
        }
        match push_opt_lit(&mut out, "eprinttype", &self.eprint_type) {
            Ok(_) => {},
            Err(e) => {
                return Err(e);
            },
        }
        push_opt_verb(&mut out, "eprint", &self.eprint);
        match push_opt_lit(&mut out, "isbn", &self.isbn) {
            Ok(_) => {},
            Err(e) => {
                return Err(e);
            },
        }
        match push_opt_lits(&mut out, "location", &self.location) {
            Ok(_) => {},
            Err(e) => {
                return Err(e);
            },
        }
        push_opt_int(&mut out, "month", &self.month);
        match push_opt_lit(&mut out, "note", &self.note) {
            Ok(_) => {},
            Err(e) => {
                return Err(e);
            },
        }
        match push_opt_lit(&mut out, "pagetotal", &self.page_total) {
            Ok(_) => {},
            Err(e) => {
                return Err(e);
            },
        }
        push_opt_range(&mut out, "pages", &self.pages);
        push_opt_state(&mut out, "pubstate", &self.pubstate);
        match push_opt_lit(&mut out, "subtitle", &self.subtitle) {
            Ok(_) => {},
            Err(e) => {
                return Err(e);
            },
        }
        match push_opt_lit(&mut out, "titleaddon", &self.title_addon) {
            Ok(_) => {},
            Err(e) => {
                return Err(e);
            },
        }
        push_opt_date(&mut out, "urldate", &self.url_date);
        push_opt_uri(&mut out, "url", &self.url);
        push_str_chars(&mut out, "}\n");
        Ok(chars_to_string(&out))
    }
}

/// An entry built from its required fields alone renders as a stanza
/// holding exactly the required keys, in declared order, and nothing else.
pub proof fn lemma_thesis_minimal(e: Thesis)
    requires
        e.addendum is None,
        e.chapter is None,
        e.doi is None,
        e.eprint_class is None,
        e.eprint_type is None,
        e.eprint is None,
        e.isbn is None,
        e.location is None,
        e.month is None,
        e.note is None,
        e.page_total is None,
        e.pages is None,
        e.pubstate is None,
        e.subtitle is None,
        e.title_addon is None,
        e.url_date is None,
        e.url is None,
    ensures
        thesis_text(e) == "@thesis{"@
            + e.id@
            + ",\n"@
            + field_line("author"@, FieldV::People(e.author@))
            + field_line("title"@, FieldV::Lit(e.title@))
            + field_line("type"@, FieldV::Lit(e.type_@))
            + field_line("institution"@, FieldV::Texts(e.institution@))
            + field_line("year"@, FieldV::Num(e.year as int))
            + "}\n"@,
{
    assert(thesis_text(e) =~= "@thesis{"@
        + e.id@
        + ",\n"@
        + field_line("author"@, FieldV::People(e.author@))
        + field_line("title"@, FieldV::Lit(e.title@))
        + field_line("type"@, FieldV::Lit(e.type_@))
        + field_line("institution"@, FieldV::Texts(e.institution@))
        + field_line("year"@, FieldV::Num(e.year as int))
        + "}\n"@
    );
}

/// A contribution in a conference proceedings volume.
#[derive(Debug, Clone)]
#[non_exhaustive]
pub struct InProceedings {
    pub id: String,
    pub author: List<Name>,
    pub title: Literal,
    pub book_title: Literal,
    pub year: Int,
    pub addendum: Option<Literal>,
    pub book_subtitle: Option<Literal>,
    pub book_title_addon: Option<Literal>,
    pub chapter: Option<Literal>,
    pub doi: Option<Verbatim>,
    pub editor: Option<List<Name>>,
    pub eprint: Option<Verbatim>,
    pub eprint_class: Option<Literal>,
    pub eprint_type: Option<Literal>,
    pub event_date: Option<Date>,
    pub event_title: Option<Literal>,
    pub event_title_addon: Option<Literal>,
    pub isbn: Option<Literal>,
    pub location: Option<List<Literal>>,
    pub main_subtitle: Option<Literal>,
    pub main_title: Option<Literal>,
    pub main_title_addon: Option<Literal>,
    pub month: Option<Int>,
    pub note: Option<Literal>,
    pub number: Option<Literal>,
    pub organization: Option<List<Literal>>,
    pub pages: Option<Range>,
    pub part: Option<Literal>,
    pub publisher: Option<List<Literal>>,
    pub pubstate: Option<PubState>,
    pub series: Option<Literal>,
    pub subtitle: Option<Literal>,
    pub title_addon: Option<Literal>,
    pub url: Option<Uri>,
    pub url_date: Option<Date>,
    pub venue: Option<Literal>,
    pub volume: Option<Literal>,
    pub volumes: Option<Literal>,
}

/// The complete stanza for [`InProceedings`]: the required fields in declared
/// order, then every present optional field in declared order.
pub open spec fn inproceedings_text(e: InProceedings) -> Seq<char> {
    "@inproceedings{"@
        + e.id@
        + ",\n"@
        + field_line("author"@, FieldV::People(e.author@))
        + field_line("title"@, FieldV::Lit(e.title@))
        + field_line("booktitle"@, FieldV::Lit(e.book_title@))
        + field_line("year"@, FieldV::Num(e.year as int))
        + opt_line("addendum"@, opt_lit(e.addendum))
        + opt_line("booksubtitle"@, opt_lit(e.book_subtitle))
        + opt_line("booktitleaddon"@, opt_lit(e.book_title_addon))
        + opt_line("chapter"@, opt_lit(e.chapter))
        + opt_line("doi"@, opt_verb(e.doi))
        + opt_line("editor"@, opt_names(e.editor))
        + opt_line("eprint"@, opt_verb(e.eprint))
        + opt_line("eprintclass"@, opt_lit(e.eprint_class))
        + opt_line("eprinttype"@, opt_lit(e.eprint_type))
        + opt_line("eventdate"@, opt_date(e.event_date))
        + opt_line("eventtitle"@, opt_lit(e.event_title))
        + opt_line("eventtitleaddon"@, opt_lit(e.event_title_addon))
        + opt_line("isbn"@, opt_lit(e.isbn))
        + opt_line("location"@, opt_lits(e.location))
        + opt_line("mainsubtitle"@, opt_lit(e.main_subtitle))
        + opt_line("maintitle"@, opt_lit(e.main_title))
        + opt_line("maintitleaddon"@, opt_lit(e.main_title_addon))
        + opt_line("month"@, opt_int(e.month))
        + opt_line("note"@, opt_lit(e.note))
        + opt_line("number"@, opt_lit(e.number))
        + opt_line("organization"@, opt_lits(e.organization))
        + opt_line("pages"@, opt_range(e.pages))
        + opt_line("part"@, opt_lit(e.part))
        + opt_line("publisher"@, opt_lits(e.publisher))
        + opt_line("pubstate"@, opt_state(e.pubstate))
        + opt_line("series"@, opt_lit(e.series))
        + opt_line("subtitle"@, opt_lit(e.subtitle))
        + opt_line("titleaddon"@, opt_lit(e.title_addon))
        + opt_line("url"@, opt_uri(e.url))
        + opt_line("urldate"@, opt_date(e.url_date))
        + opt_line("venue"@, opt_lit(e.venue))
        + opt_line("volume"@, opt_lit(e.volume))
        + opt_line("volumes"@, opt_lit(e.volumes))
        + "}\n"@
}

/// The first escaping failure in [`InProceedings`]'s fields, in field order.
pub open spec fn inproceedings_err(e: InProceedings) -> Option<EscapeError> {
    or_err(
        names_err(e.author@),
        or_err(escape_failure(e.title@),
        or_err(escape_failure(e.book_title@),
        or_err(opt_err(opt_lit(e.addendum)),
        or_err(opt_err(opt_lit(e.book_subtitle)),
        or_err(opt_err(opt_lit(e.book_title_addon)),
        or_err(opt_err(opt_lit(e.chapter)),
        or_err(opt_err(opt_names(e.editor)),
        or_err(opt_err(opt_lit(e.eprint_class)),
        or_err(opt_err(opt_lit(e.eprint_type)),
        or_err(opt_err(opt_lit(e.event_title)),
        or_err(opt_err(opt_lit(e.event_title_addon)),
        or_err(opt_err(opt_lit(e.isbn)),
        or_err(opt_err(opt_lits(e.location)),
        or_err(opt_err(opt_lit(e.main_subtitle)),
        or_err(opt_err(opt_lit(e.main_title)),
        or_err(opt_err(opt_lit(e.main_title_addon)),
        or_err(opt_err(opt_lit(e.note)),
        or_err(opt_err(opt_lit(e.number)),
        or_err(opt_err(opt_lits(e.organization)),
        or_err(opt_err(opt_lit(e.part)),
        or_err(opt_err(opt_lits(e.publisher)),
        or_err(opt_err(opt_lit(e.series)),
        or_err(opt_err(opt_lit(e.subtitle)),
        or_err(opt_err(opt_lit(e.title_addon)),
        or_err(opt_err(opt_lit(e.venue)),
        or_err(opt_err(opt_lit(e.volume)),
            opt_err(opt_lit(e.volumes)))))))))))))))))))))))))))),
    )
}

impl InProceedings {
    /// A new `inproceedings` entry holding exactly the required fields;
    /// every optional field starts out `None`.
    pub fn new(id: String, author: List<Name>, title: Literal, book_title: Literal, year: Int) -> (e: InProceedings)
        ensures
            e.id == id,
            e.author == author,
            e.title == title,
            e.book_title == book_title,
            e.year == year,
            e.addendum is None,
            e.book_subtitle is None,
            e.book_title_addon is None,
            e.chapter is None,
            e.doi is None,
            e.editor is None,
            e.eprint is None,
            e.eprint_class is None,
            e.eprint_type is None,
            e.event_date is None,
            e.event_title is None,
            e.event_title_addon is None,
            e.isbn is None,
            e.location is None,
            e.main_subtitle is None,
            e.main_title is None,
            e.main_title_addon is None,
            e.month is None,
            e.note is None,
            e.number is None,
            e.organization is None,
            e.pages is None,
            e.part is None,
            e.publisher is None,
            e.pubstate is None,
            e.series is None,
            e.subtitle is None,
            e.title_addon is None,
            e.url is None,
            e.url_date is None,
            e.venue is None,
            e.volume is None,
            e.volumes is None,
    {
        InProceedings {
            id,
            author,
            title,
            book_title,
            year,
            addendum: None,
            book_subtitle: None,
            book_title_addon: None,
            chapter: None,
            doi: None,
            editor: None,
            eprint: None,
            eprint_class: None,
            eprint_type: None,
            event_date: None,
            event_title: None,
            event_title_addon: None,
            isbn: None,
            location: None,
            main_subtitle: None,
            main_title: None,
            main_title_addon: None,
            month: None,
            note: None,
            number: None,
            organization: None,
            pages: None,
            part: None,
            publisher: None,
            pubstate: None,
            series: None,
            subtitle: None,
            title_addon: None,
            url: None,
            url_date: None,
            venue: None,
            volume: None,
            volumes: None,
        }
    }

    /// Render this entry as a BibLaTeX stanza, or report the first
    /// escaping failure among its fields.
    pub fn to_biblatex(&self) -> (r: Result<String, EscapeError>)
        ensures
            match r {
                Ok(out) => inproceedings_err(*self) is None && out@ == inproceedings_text(*self),
                Err(e) => inproceedings_err(*self) == Some(e),
            },
    {
        let mut out = str_chars("@inproceedings{");
        push_verbatim(&mut out, &self.id);
        push_str_chars(&mut out, ",\n");
        match push_req_names(&mut out, "author", &self.author) {
            Ok(_) => {},
            Err(e) => {
                return Err(e);
            },
        }
        match push_req_lit(&mut out, "title", &self.title) {
            Ok(_) => {},
            Err(e) => {
                return Err(e);
            },
        }
        match push_req_lit(&mut out, "booktitle", &self.book_title) {
            Ok(_) => {},
            Err(e) => {
                return Err(e);
            },
        }
        push_req_int(&mut out, "year", self.year);
        match push_opt_lit(&mut out, "addendum", &self.addendum) {
            Ok(_) => {},
            Err(e) => {
                return Err(e);
            },
        }
        match push_opt_lit(&mut out, "booksubtitle", &self.book_subtitle) {
            Ok(_) => {},
            Err(e) => {
                return Err(e);
            },
        }
        match push_opt_lit(&mut out, "booktitleaddon", &self.book_title_addon) {
            Ok(_) => {},
            Err(e) => {
                return Err(e);
            },
        }
        match push_opt_lit(&mut out, "chapter", &self.chapter) {
            Ok(_) => {},
            Err(e) => {
                return Err(e);
            },
        }
        push_opt_verb(&mut out, "doi", &self.doi);
        match push_opt_names(&mut out, "editor", &self.editor) {
            Ok(_) => {},
            Err(e) => {
                return Err(e);
            },
        }
        push_opt_verb(&mut out, "eprint", &self.eprint);
        match push_opt_lit(&mut out, "eprintclass", &self.eprint_class) {
            Ok(_) => {},
            Err(e) => {
                return Err(e);
            },
        }
        match push_opt_lit(&mut out, "eprinttype", &self.eprint_type) {
            Ok(_) => {},
            Err(e) => {
                return Err(e);
            },
        }
        push_opt_date(&mut out, "eventdate", &self.event_date);
        match push_opt_lit(&mut out, "eventtitle", &self.event_title) {
            Ok(_) => {},
            Err(e) => {
                return Err(e);
            },
        }
        match push_opt_lit(&mut out, "eventtitleaddon", &self.event_title_addon) {
            Ok(_) => {},
            Err(e) => {
                return Err(e);
            },
        }
        match push_opt_lit(&mut out, "isbn", &self.isbn) {
            Ok(_) => {},
            Err(e) => {
                return Err(e);
            },
        }
        match push_opt_lits(&mut out, "location", &self.location) {
            Ok(_) => {},
            Err(e) => {
                return Err(e);
            },
        }
        match push_opt_lit(&mut out, "mainsubtitle", &self.main_subtitle) {
            Ok(_) => {},
            Err(e) => {
                return Err(e);
            },
        }
        match push_opt_lit(&mut out, "maintitle", &self.main_title) {
            Ok(_) => {},
            Err(e) => {
                return Err(e);
            },
        }
        match push_opt_lit(&mut out, "maintitleaddon", &self.main_title_addon) {
            Ok(_) => {},
            Err(e) => {
                return Err(e);
            },
        }
        push_opt_int(&mut out, "month", &self.month);
        match push_opt_lit(&mut out, "note", &self.note) {
            Ok(_) => {},
            Err(e) => {
                return Err(e);
            },
        }
        match push_opt_lit(&mut out, "number", &self.number) {
            Ok(_) => {},
            Err(e) => {
                return Err(e);
            },
        }
        match push_opt_lits(&mut out, "organization", &self.organization) {
            Ok(_) => {},
            Err(e) => {
                return Err(e);
            },
        }
        push_opt_range(&mut out, "pages", &self.pages);
        match push_opt_lit(&mut out, "part", &self.part) {
            Ok(_) => {},
            Err(e) => {
                return Err(e);
            },
        }
        match push_opt_lits(&mut out, "publisher", &self.publisher) {
            Ok(_) => {},
            Err(e) => {
                return Err(e);
            },
        }
        push_opt_state(&mut out, "pubstate", &self.pubstate);
        match push_opt_lit(&mut out, "series", &self.series) {
            Ok(_) => {},
            Err(e) => {
                return Err(e);
            },
        }
        match push_opt_lit(&mut out, "subtitle", &self.subtitle) {
            Ok(_) => {},
            Err(e) => {
                return Err(e);
            },
        }
        match push_opt_lit(&mut out, "titleaddon", &self.title_addon) {
            Ok(_) => {},
            Err(e) => {
                return Err(e);
            },
        }
        push_opt_uri(&mut out, "url", &self.url);
        push_opt_date(&mut out, "urldate", &self.url_date);
        match push_opt_lit(&mut out, "venue", &self.venue) {
            Ok(_) => {},
            Err(e) => {
                return Err(e);
            },
        }
        match push_opt_lit(&mut out, "volume", &self.volume) {
            Ok(_) => {},
            Err(e) => {
                return Err(e);
            },
        }
        match push_opt_lit(&mut out, "volumes", &self.volumes) {
            Ok(_) => {},
            Err(e) => {
                return Err(e);
            },
        }
        push_str_chars(&mut out, "}\n");
        Ok(chars_to_string(&out))
    }
}

/// An entry built from its required fields alone renders as a stanza
/// holding exactly the required keys, in declared order, and nothing else.
pub proof fn lemma_inproceedings_minimal(e: InProceedings)
    requires
        e.addendum is None,
        e.book_subtitle is None,
        e.book_title_addon is None,
        e.chapter is None,
        e.doi is None,
        e.editor is None,
        e.eprint is None,
        e.eprint_class is None,
        e.eprint_type is None,
        e.event_date is None,
        e.event_title is None,
        e.event_title_addon is None,
        e.isbn is None,
        e.location is None,
        e.main_subtitle is None,
        e.main_title is None,
        e.main_title_addon is None,
        e.month is None,
        e.note is None,
        e.number is None,
        e.organization is None,
        e.pages is None,
        e.part is None,
        e.publisher is None,
        e.pubstate is None,
        e.series is None,
        e.subtitle is None,
        e.title_addon is None,
        e.url is None,
        e.url_date is None,
        e.venue is None,
        e.volume is None,
        e.volumes is None,
    ensures
        inproceedings_text(e) == "@inproceedings{"@
            + e.id@
            + ",\n"@
            + field_line("author"@, FieldV::People(e.author@))
            + field_line("title"@, FieldV::Lit(e.title@))
            + field_line("booktitle"@, FieldV::Lit(e.book_title@))
            + field_line("year"@, FieldV::Num(e.year as int))
            + "}\n"@,
{
    assert(inproceedings_text(e) =~= "@inproceedings{"@
        + e.id@
        + ",\n"@
        + field_line("author"@, FieldV::People(e.author@))
        + field_line("title"@, FieldV::Lit(e.title@))
        + field_line("booktitle"@, FieldV::Lit(e.book_title@))
        + field_line("year"@, FieldV::Num(e.year as int))
        + "}\n"@
    );
}

/// A technical report, working paper or similar institutional document.
#[derive(Debug, Clone)]
#[non_exhaustive]
pub struct Report {
    pub id: String,
    pub author: List<Name>,
    pub title: Literal,
    pub type_: Literal,
    pub institution: List<Literal>,
    pub year: Int,
    pub addendum: Option<Literal>,
    pub chapter: Option<Literal>,
    pub doi: Option<Verbatim>,
    pub eprint: Option<Verbatim>,
    pub eprint_class: Option<Literal>,
    pub eprint_type: Option<Literal>,
    pub location: Option<List<Literal>>,
    pub month: Option<Int>,
    pub note: Option<Literal>,
    pub number: Option<Literal>,
    pub pages: Option<Range>,
    pub page_total: Option<Literal>,
    pub pubstate: Option<PubState>,
    pub subtitle: Option<Literal>,
    pub title_addon: Option<Literal>,
    pub url: Option<Uri>,
    pub url_date: Option<Date>,
    pub version: Option<Literal>,
}

/// The complete stanza for [`Report`]: the required fields in declared
/// order, then every present optional field in declared order.
pub open spec fn report_text(e: Report) -> Seq<char> {
    "@report{"@
        + e.id@
        + ",\n"@
        + field_line("author"@, FieldV::People(e.author@))
        + field_line("title"@, FieldV::Lit(e.title@))
        + field_line("type"@, FieldV::Lit(e.type_@))
        + field_line("institution"@, FieldV::Texts(e.institution@))
        + field_line("year"@, FieldV::Num(e.year as int))
        + opt_line("addendum"@, opt_lit(e.addendum))
        + opt_line("chapter"@, opt_lit(e.chapter))
        + opt_line("doi"@, opt_verb(e.doi))
        + opt_line("eprint"@, opt_verb(e.eprint))
        + opt_line("eprintclass"@, opt_lit(e.eprint_class))
        + opt_line("eprinttype"@, opt_lit(e.eprint_type))
        + opt_line("location"@, opt_lits(e.location))
        + opt_line("month"@, opt_int(e.month))
        + opt_line("note"@, opt_lit(e.note))
        + opt_line("number"@, opt_lit(e.number))
        + opt_line("pages"@, opt_range(e.pages))
        + opt_line("pagetotal"@, opt_lit(e.page_total))
        + opt_line("pubstate"@, opt_state(e.pubstate))
        + opt_line("subtitle"@, opt_lit(e.subtitle))
        + opt_line("titleaddon"@, opt_lit(e.title_addon))
        + opt_line("url"@, opt_uri(e.url))
        + opt_line("urldate"@, opt_date(e.url_date))
        + opt_line("version"@, opt_lit(e.version))
        + "}\n"@
}

/// The first escaping failure in [`Report`]'s fields, in field order.
pub open spec fn report_err(e: Report) -> Option<EscapeError> {
    or_err(
        names_err(e.author@),
        or_err(escape_failure(e.title@),
        or_err(escape_failure(e.type_@),
        or_err(lits_err(e.institution@),
        or_err(opt_err(opt_lit(e.addendum)),
        or_err(opt_err(opt_lit(e.chapter)),
        or_err(opt_err(opt_lit(e.eprint_class)),
        or_err(opt_err(opt_lit(e.eprint_type)),
        or_err(opt_err(opt_lits(e.location)),
        or_err(opt_err(opt_lit(e.note)),
        or_err(opt_err(opt_lit(e.number)),
        or_err(opt_err(opt_lit(e.page_total)),
        or_err(opt_err(opt_lit(e.subtitle)),
        or_err(opt_err(opt_lit(e.title_addon)),
            opt_err(opt_lit(e.version))))))))))))))),
    )
}

impl Report {
    /// A new `report` entry holding exactly the required fields;
    /// every optional field starts out `None`.
    pub fn new(
        id: String,
        author: List<Name>,
        title: Literal,
        type_: Literal,
        institution: List<Literal>,
        year: Int,
    ) -> (e: Report)
        ensures
            e.id == id,
            e.author == author,
            e.title == title,
            e.type_ == type_,
            e.institution == institution,
            e.year == year,
            e.addendum is None,
            e.chapter is None,
            e.doi is None,
            e.eprint is None,
            e.eprint_class is None,
            e.eprint_type is None,
            e.location is None,
            e.month is None,
            e.note is None,
            e.number is None,
            e.pages is None,
            e.page_total is None,
            e.pubstate is None,
            e.subtitle is None,
            e.title_addon is None,
            e.url is None,
            e.url_date is None,
            e.version is None,
    {
        Report {
            id,
            author,
            title,
            type_,
            institution,
            year,
            addendum: None,
            chapter: None,
            doi: None,
            eprint: None,
            eprint_class: None,
            eprint_type: None,
            location: None,
            month: None,
            note: None,
            number: None,
            pages: None,
            page_total: None,
            pubstate: None,
            subtitle: None,
            title_addon: None,
            url: None,
            url_date: None,
            version: None,
        }
    }

    /// Render this entry as a BibLaTeX stanza, or report the first
    /// escaping failure among its fields.
    pub fn to_biblatex(&self) -> (r: Result<String, EscapeError>)
        ensures
            match r {
                Ok(out) => report_err(*self) is None && out@ == report_text(*self),
                Err(e) => report_err(*self) == Some(e),
            },
    {
        let mut out = str_chars("@report{");
        push_verbatim(&mut out, &self.id);
        push_str_chars(&mut out, ",\n");
        match push_req_names(&mut out, "author", &self.author) {
            Ok(_) => {},
            Err(e) => {
                return Err(e);
            },
        }
        match push_req_lit(&mut out, "title", &self.title) {
            Ok(_) => {},
            Err(e) => {
                return Err(e);
            },
        }
        match push_req_lit(&mut out, "type", &self.type_) {
            Ok(_) => {},
            Err(e) => {
                return Err(e);
            },
        }
        match push_req_texts(&mut out, "institution", &self.institution) {
            Ok(_) => {},
            Err(e) => {
                return Err(e);
            },
        }
        push_req_int(&mut out, "year", self.year);
        match push_opt_lit(&mut out, "addendum", &self.addendum) {
            Ok(_) => {},
            Err(e) => {
                return Err(e);
            },
        }
        match push_opt_lit(&mut out, "chapter", &self.chapter) {
            Ok(_) => {},
            Err(e) => {
                return Err(e);
            },
        }
        push_opt_verb(&mut out, "doi", &self.doi);
        push_opt_verb(&mut out, "eprint", &self.eprint);
        match push_opt_lit(&mut out, "eprintclass", &self.eprint_class) {
            Ok(_) => {},
            Err(e) => {
                return Err(e);
            },
        }
        match push_opt_lit(&mut out, "eprinttype", &self.eprint_type) {
            Ok(_) => {},
            Err(e) => {
                return Err(e);
            },
        }
        match push_opt_lits(&mut out, "location", &self.location) {
            Ok(_) => {},
            Err(e) => {
                return Err(e);
            },
        }
        push_opt_int(&mut out, "month", &self.month);
        match push_opt_lit(&mut out, "note", &self.note) {
            Ok(_) => {},
            Err(e) => {
                return Err(e);
            },
        }
        match push_opt_lit(&mut out, "number", &self.number) {
            Ok(_) => {},
            Err(e) => {
                return Err(e);
            },
        }
        push_opt_range(&mut out, "pages", &self.pages);
        match push_opt_lit(&mut out, "pagetotal", &self.page_total) {
            Ok(_) => {},
            Err(e) => {
                return Err(e);
            },
        }
        push_opt_state(&mut out, "pubstate", &self.pubstate);
        match push_opt_lit(&mut out, "subtitle", &self.subtitle) {
            Ok(_) => {},
            Err(e) => {
                return Err(e);
            },
        }
        match push_opt_lit(&mut out, "titleaddon", &self.title_addon) {
            Ok(_) => {},
            Err(e) => {
                return Err(e);
            },
        }
        push_opt_uri(&mut out, "url", &self.url);
        push_opt_date(&mut out, "urldate", &self.url_date);
        match push_opt_lit(&mut out, "version", &self.version) {
            Ok(_) => {},
            Err(e) => {
                return Err(e);
            },
        }
        push_str_chars(&mut out, "}\n");
        Ok(chars_to_string(&out))
    }
}

/// An entry built from its required fields alone renders as a stanza
/// holding exactly the required keys, in declared order, and nothing else.
pub proof fn lemma_report_minimal(e: Report)
    requires
        e.addendum is None,
        e.chapter is None,
        e.doi is None,
        e.eprint is None,
        e.eprint_class is None,
        e.eprint_type is None,
        e.location is None,
        e.month is None,
        e.note is None,
        e.number is None,
        e.pages is None,
        e.page_total is None,
        e.pubstate is None,
        e.subtitle is None,
        e.title_addon is None,
        e.url is None,
        e.url_date is None,
        e.version is None,
    ensures
        report_text(e) == "@report{"@
            + e.id@
            + ",\n"@
            + field_line("author"@, FieldV::People(e.author@))
            + field_line("title"@, FieldV::Lit(e.title@))
            + field_line("type"@, FieldV::Lit(e.type_@))
            + field_line("institution"@, FieldV::Texts(e.institution@))
            + field_line("year"@, FieldV::Num(e.year as int))
            + "}\n"@,
{
    assert(report_text(e) =~= "@report{"@
        + e.id@
        + ",\n"@
        + field_line("author"@, FieldV::People(e.author@))
        + field_line("title"@, FieldV::Lit(e.title@))
        + field_line("type"@, FieldV::Lit(e.type_@))
        + field_line("institution"@, FieldV::Texts(e.institution@))
        + field_line("year"@, FieldV::Num(e.year as int))
        + "}\n"@
    );
}

/// A fallback variant for works that fit no other type, such as preprints.
#[derive(Debug, Clone)]
#[non_exhaustive]
pub struct Misc {
    pub id: String,
    pub author: List<Name>,
    pub title: Literal,
    pub year: Int,
    pub addendum: Option<Literal>,
    pub chapter: Option<Literal>,
    pub doi: Option<Verbatim>,
    pub edition: Option<Literal>,
    pub eprint: Option<Verbatim>,
    pub eprint_class: Option<Literal>,
    pub eprint_type: Option<Literal>,
    pub isbn: Option<Literal>,
    pub location: Option<List<Literal>>,
    pub note: Option<Literal>,
    pub number: Option<Literal>,
    pub organization: Option<List<Literal>>,
    pub pages: Option<Range>,
    pub page_total: Option<Literal>,
    pub publisher: Option<List<Literal>>,
    pub pubstate: Option<PubState>,
    pub series: Option<Literal>,
    pub subtitle: Option<Literal>,
    pub title_addon: Option<Literal>,
    pub type_: Option<Literal>,
    pub url: Option<Uri>,
    pub url_date: Option<Date>,
    pub version: Option<Literal>,
}

/// The complete stanza for [`Misc`]: the required fields in declared
/// order, then every present optional field in declared order.
pub open spec fn misc_text(e: Misc) -> Seq<char> {
    "@misc{"@
        + e.id@
        + ",\n"@
        + field_line("author"@, FieldV::People(e.author@))
        + field_line("title"@, FieldV::Lit(e.title@))
        + field_line("year"@, FieldV::Num(e.year as int))
        + opt_line("addendum"@, opt_lit(e.addendum))
        + opt_line("chapter"@, opt_lit(e.chapter))
        + opt_line("doi"@, opt_verb(e.doi))
        + opt_line("edition"@, opt_lit(e.edition))
        + opt_line("eprint"@, opt_verb(e.eprint))
        + opt_line("eprintclass"@, opt_lit(e.eprint_class))
        + opt_line("eprinttype"@, opt_lit(e.eprint_type))
        + opt_line("isbn"@, opt_lit(e.isbn))
        + opt_line("location"@, opt_lits(e.location))
        + opt_line("note"@, opt_lit(e.note))
        + opt_line("number"@, opt_lit(e.number))
        + opt_line("organization"@, opt_lits(e.organization))
        + opt_line("pages"@, opt_range(e.pages))
        + opt_line("pagetotal"@, opt_lit(e.page_total))
        + opt_line("publisher"@, opt_lits(e.publisher))
        + opt_line("pubstate"@, opt_state(e.pubstate))
        + opt_line("series"@, opt_lit(e.series))
        + opt_line("subtitle"@, opt_lit(e.subtitle))
        + opt_line("titleaddon"@, opt_lit(e.title_addon))
        + opt_line("type"@, opt_lit(e.type_))
        + opt_line("url"@, opt_uri(e.url))
        + opt_line("urldate"@, opt_date(e.url_date))
        + opt_line("version"@, opt_lit(e.version))
        + "}\n"@
}

/// The first escaping failure in [`Misc`]'s fields, in field order.
pub open spec fn misc_err(e: Misc) -> Option<EscapeError> {
    or_err(
        names_err(e.author@),
        or_err(escape_failure(e.title@),
        or_err(opt_err(opt_lit(e.addendum)),
        or_err(opt_err(opt_lit(e.chapter)),
        or_err(opt_err(opt_lit(e.edition)),
        or_err(opt_err(opt_lit(e.eprint_class)),
        or_err(opt_err(opt_lit(e.eprint_type)),
        or_err(opt_err(opt_lit(e.isbn)),
        or_err(opt_err(opt_lits(e.location)),
        or_err(opt_err(opt_lit(e.note)),
        or_err(opt_err(opt_lit(e.number)),
        or_err(opt_err(opt_lits(e.organization)),
        or_err(opt_err(opt_lit(e.page_total)),
        or_err(opt_err(opt_lits(e.publisher)),
        or_err(opt_err(opt_lit(e.series)),
        or_err(opt_err(opt_lit(e.subtitle)),
        or_err(opt_err(opt_lit(e.title_addon)),
        or_err(opt_err(opt_lit(e.type_)),
            opt_err(opt_lit(e.version))))))))))))))))))),
    )
}

impl Misc {
    /// A new `misc` entry holding exactly the required fields;
    /// every optional field starts out `None`.
    pub fn new(id: String, author: List<Name>, title: Literal, year: Int) -> (e: Misc)
        ensures
            e.id == id,
            e.author == author,
            e.title == title,
            e.year == year,
            e.addendum is None,
            e.chapter is None,
            e.doi is None,
            e.edition is None,
            e.eprint is None,
            e.eprint_class is None,
            e.eprint_type is None,
            e.isbn is None,
            e.location is None,
            e.note is None,
            e.number is None,
            e.organization is None,
            e.pages is None,
            e.page_total is None,
            e.publisher is None,
            e.pubstate is None,
            e.series is None,
            e.subtitle is None,
            e.title_addon is None,
            e.type_ is None,
            e.url is None,
            e.url_date is None,
            e.version is None,
    {
        Misc {
            id,
            author,
            title,
            year,
            addendum: None,
            chapter: None,
            doi: None,
            edition: None,
            eprint: None,
            eprint_class: None,
            eprint_type: None,
            isbn: None,
            location: None,
            note: None,
            number: None,
            organization: None,
            pages: None,
            page_total: None,
            publisher: None,
            pubstate: None,
            series: None,
            subtitle: None,
            title_addon: None,
            type_: None,
            url: None,
            url_date: None,
            version: None,
        }
    }

    /// Render this entry as a BibLaTeX stanza, or report the first
    /// escaping failure among its fields.
    pub fn to_biblatex(&self) -> (r: Result<String, EscapeError>)
        ensures
            match r {
                Ok(out) => misc_err(*self) is None && out@ == misc_text(*self),
                Err(e) => misc_err(*self) == Some(e),
            },
    {
        let mut out = str_chars("@misc{");
        push_verbatim(&mut out, &self.id);
        push_str_chars(&mut out, ",\n");
        match push_req_names(&mut out, "author", &self.author) {
            Ok(_) => {},
            Err(e) => {
                return Err(e);
            },
        }
        match push_req_lit(&mut out, "title", &self.title) {
            Ok(_) => {},
            Err(e) => {
                return Err(e);
            },
        }
        push_req_int(&mut out, "year", self.year);
        match push_opt_lit(&mut out, "addendum", &self.addendum) {
            Ok(_) => {},
            Err(e) => {
                return Err(e);
            },
        }
        match push_opt_lit(&mut out, "chapter", &self.chapter) {
            Ok(_) => {},
            Err(e) => {
                return Err(e);
            },
        }
        push_opt_verb(&mut out, "doi", &self.doi);
        match push_opt_lit(&mut out, "edition", &self.edition) {
            Ok(_) => {},
            Err(e) => {
                return Err(e);
            },
        }
        push_opt_verb(&mut out, "eprint", &self.eprint);
        match push_opt_lit(&mut out, "eprintclass", &self.eprint_class) {
            Ok(_) => {},
            Err(e) => {
                return Err(e);
            },
        }
        match push_opt_lit(&mut out, "eprinttype", &self.eprint_type) {
            Ok(_) => {},
            Err(e) => {
                return Err(e);
            },
        }
        match push_opt_lit(&mut out, "isbn", &self.isbn) {
            Ok(_) => {},
            Err(e) => {
                return Err(e);
            },
        }
        match push_opt_lits(&mut out, "location", &self.location) {
            Ok(_) => {},
            Err(e) => {
                return Err(e);
            },
        }
        match push_opt_lit(&mut out, "note", &self.note) {
            Ok(_) => {},
            Err(e) => {
                return Err(e);
            },
        }
        match push_opt_lit(&mut out, "number", &self.number) {
            Ok(_) => {},
            Err(e) => {
                return Err(e);
            },
        }
        match push_opt_lits(&mut out, "organization", &self.organization) {
            Ok(_) => {},
            Err(e) => {
                return Err(e);
            },
        }
        push_opt_range(&mut out, "pages", &self.pages);
        match push_opt_lit(&mut out, "pagetotal", &self.page_total) {
            Ok(_) => {},
            Err(e) => {
                return Err(e);
            },
        }
        match push_opt_lits(&mut out, "publisher", &self.publisher) {
            Ok(_) => {},
            Err(e) => {
                return Err(e);
            },
        }
        push_opt_state(&mut out, "pubstate", &self.pubstate);
        match push_opt_lit(&mut out, "series", &self.series) {
            Ok(_) => {},
            Err(e) => {
                return Err(e);
            },
        }
        match push_opt_lit(&mut out, "subtitle", &self.subtitle) {
            Ok(_) => {},
            Err(e) => {
                return Err(e);
            },
        }
        match push_opt_lit(&mut out, "titleaddon", &self.title_addon) {
            Ok(_) => {},
            Err(e) => {
                return Err(e);
            },
        }
        match push_opt_lit(&mut out, "type", &self.type_) {
            Ok(_) => {},
            Err(e) => {
                return Err(e);
            },
        }
        push_opt_uri(&mut out, "url", &self.url);
        push_opt_date(&mut out, "urldate", &self.url_date);
        match push_opt_lit(&mut out, "version", &self.version) {
            Ok(_) => {},
            Err(e) => {
                return Err(e);
            },
        }
        push_str_chars(&mut out, "}\n");
        Ok(chars_to_string(&out))
    }
}

/// An entry built from its required fields alone renders as a stanza
/// holding exactly the required keys, in declared order, and nothing else.
pub proof fn lemma_misc_minimal(e: Misc)
    requires
        e.addendum is None,
        e.chapter is None,
        e.doi is None,
        e.edition is None,
        e.eprint is None,
        e.eprint_class is None,
        e.eprint_type is None,
        e.isbn is None,
        e.location is None,
        e.note is None,
        e.number is None,
        e.organization is None,
        e.pages is None,
        e.page_total is None,
        e.publisher is None,
        e.pubstate is None,
        e.series is None,
        e.subtitle is None,
        e.title_addon is None,
        e.type_ is None,
        e.url is None,
        e.url_date is None,
        e.version is None,
    ensures
        misc_text(e) == "@misc{"@
            + e.id@
            + ",\n"@
            + field_line("author"@, FieldV::People(e.author@))
            + field_line("title"@, FieldV::Lit(e.title@))
            + field_line("year"@, FieldV::Num(e.year as int))
            + "}\n"@,
{
    assert(misc_text(e) =~= "@misc{"@
        + e.id@
        + ",\n"@
        + field_line("author"@, FieldV::People(e.author@))
        + field_line("title"@, FieldV::Lit(e.title@))
        + field_line("year"@, FieldV::Num(e.year as int))
        + "}\n"@
    );
}

/// A single-volume book.
#[derive(Debug, Clone)]
#[non_exhaustive]
pub struct Book {
    pub id: String,
    pub author: List<Name>,
    pub title: Literal,
    pub year: Int,
    pub addendum: Option<Literal>,
    pub chapter: Option<Literal>,
    pub doi: Option<Verbatim>,
    pub edition: Option<Literal>,
    pub editor: Option<List<Name>>,
    pub isbn: Option<Literal>,
    pub location: Option<List<Literal>>,
    pub note: Option<Literal>,
    pub number: Option<Literal>,
    pub pages: Option<Range>,
    pub page_total: Option<Literal>,
    pub publisher: Option<List<Literal>>,
    pub pubstate: Option<PubState>,
    pub series: Option<Literal>,
    pub subtitle: Option<Literal>,
    pub title_addon: Option<Literal>,
    pub url: Option<Uri>,
    pub url_date: Option<Date>,
    pub volume: Option<Literal>,
    pub volumes: Option<Literal>,
}

/// The complete stanza for [`Book`]: the required fields in declared
/// order, then every present optional field in declared order.
pub open spec fn book_text(e: Book) -> Seq<char> {
    "@book{"@
        + e.id@
        + ",\n"@
        + field_line("author"@, FieldV::People(e.author@))
        + field_line("title"@, FieldV::Lit(e.title@))
        + field_line("year"@, FieldV::Num(e.year as int))
        + opt_line("addendum"@, opt_lit(e.addendum))
        + opt_line("chapter"@, opt_lit(e.chapter))
        + opt_line("doi"@, opt_verb(e.doi))
        + opt_line("edition"@, opt_lit(e.edition))
        + opt_line("editor"@, opt_names(e.editor))
        + opt_line("isbn"@, opt_lit(e.isbn))
        + opt_line("location"@, opt_lits(e.location))
        + opt_line("note"@, opt_lit(e.note))
        + opt_line("number"@, opt_lit(e.number))
        + opt_line("pages"@, opt_range(e.pages))
        + opt_line("pagetotal"@, opt_lit(e.page_total))
        + opt_line("publisher"@, opt_lits(e.publisher))
        + opt_line("pubstate"@, opt_state(e.pubstate))
        + opt_line("series"@, opt_lit(e.series))
        + opt_line("subtitle"@, opt_lit(e.subtitle))
        + opt_line("titleaddon"@, opt_lit(e.title_addon))
        + opt_line("url"@, opt_uri(e.url))
        + opt_line("urldate"@, opt_date(e.url_date))
        + opt_line("volume"@, opt_lit(e.volume))
        + opt_line("volumes"@, opt_lit(e.volumes))
        + "}\n"@
}

/// The first escaping failure in [`Book`]'s fields, in field order.
pub open spec fn book_err(e: Book) -> Option<EscapeError> {
    or_err(
        names_err(e.author@),
        or_err(escape_failure(e.title@),
        or_err(opt_err(opt_lit(e.addendum)),
        or_err(opt_err(opt_lit(e.chapter)),
        or_err(opt_err(opt_lit(e.edition)),
        or_err(opt_err(opt_names(e.editor)),
        or_err(opt_err(opt_lit(e.isbn)),
        or_err(opt_err(opt_lits(e.location)),
        or_err(opt_err(opt_lit(e.note)),
        or_err(opt_err(opt_lit(e.number)),
        or_err(opt_err(opt_lit(e.page_total)),
        or_err(opt_err(opt_lits(e.publisher)),
        or_err(opt_err(opt_lit(e.series)),
        or_err(opt_err(opt_lit(e.subtitle)),
        or_err(opt_err(opt_lit(e.title_addon)),
        or_err(opt_err(opt_lit(e.volume)),
            opt_err(opt_lit(e.volumes))))))))))))))))),
    )
}

impl Book {
    /// A new `book` entry holding exactly the required fields;
    /// every optional field starts out `None`.
    pub fn new(id: String, author: List<Name>, title: Literal, year: Int) -> (e: Book)
        ensures
            e.id == id,
            e.author == author,
            e.title == title,
            e.year == year,
            e.addendum is None,
            e.chapter is None,
            e.doi is None,
            e.edition is None,
            e.editor is None,
            e.isbn is None,
            e.location is None,
            e.note is None,
            e.number is None,
            e.pages is None,
            e.page_total is None,
            e.publisher is None,
            e.pubstate is None,
            e.series is None,
            e.subtitle is None,
            e.title_addon is None,
            e.url is None,
            e.url_date is None,
            e.volume is None,
            e.volumes is None,
    {
        Book {
            id,
            author,
            title,
            year,
            addendum: None,
            chapter: None,
            doi: None,
            edition: None,
            editor: None,
            isbn: None,
            location: None,
            note: None,
            number: None,
            pages: None,
            page_total: None,
            publisher: None,
            pubstate: None,
            series: None,
            subtitle: None,
            title_addon: None,
            url: None,
            url_date: None,
            volume: None,
            volumes: None,
        }
    }

    /// Render this entry as a BibLaTeX stanza, or report the first
    /// escaping failure among its fields.
    pub fn to_biblatex(&self) -> (r: Result<String, EscapeError>)
        ensures
            match r {
                Ok(out) => book_err(*self) is None && out@ == book_text(*self),
                Err(e) => book_err(*self) == Some(e),
            },
    {
        let mut out = str_chars("@book{");
        push_verbatim(&mut out, &self.id);
        push_str_chars(&mut out, ",\n");
        match push_req_names(&mut out, "author", &self.author) {
            Ok(_) => {},
            Err(e) => {
                return Err(e);
            },
        }
        match push_req_lit(&mut out, "title", &self.title) {
            Ok(_) => {},
            Err(e) => {
                return Err(e);
            },
        }
        push_req_int(&mut out, "year", self.year);
        match push_opt_lit(&mut out, "addendum", &self.addendum) {
            Ok(_) => {},
            Err(e) => {
                return Err(e);
            },
        }
        match push_opt_lit(&mut out, "chapter", &self.chapter) {
            Ok(_) => {},
            Err(e) => {
                return Err(e);
            },
        }
        push_opt_verb(&mut out, "doi", &self.doi);
        match push_opt_lit(&mut out, "edition", &self.edition) {
            Ok(_) => {},
            Err(e) => {
                return Err(e);
            },
        }
        match push_opt_names(&mut out, "editor", &self.editor) {
            Ok(_) => {},
            Err(e) => {
                return Err(e);
            },
        }
        match push_opt_lit(&mut out, "isbn", &self.isbn) {
            Ok(_) => {},
            Err(e) => {
                return Err(e);
            },
        }
        match push_opt_lits(&mut out, "location", &self.location) {
            Ok(_) => {},
            Err(e) => {
                return Err(e);
            },
        }
        match push_opt_lit(&mut out, "note", &self.note) {
            Ok(_) => {},
            Err(e) => {
                return Err(e);
            },
        }
        match push_opt_lit(&mut out, "number", &self.number) {
            Ok(_) => {},
            Err(e) => {
                return Err(e);
            },
        }
        push_opt_range(&mut out, "pages", &self.pages);
        match push_opt_lit(&mut out, "pagetotal", &self.page_total) {
            Ok(_) => {},
            Err(e) => {
                return Err(e);
            },
        }
        match push_opt_lits(&mut out, "publisher", &self.publisher) {
            Ok(_) => {},
            Err(e) => {
                return Err(e);
            },
        }
        push_opt_state(&mut out, "pubstate", &self.pubstate);
        match push_opt_lit(&mut out, "series", &self.series) {
            Ok(_) => {},
            Err(e) => {
                return Err(e);
            },
        }
        match push_opt_lit(&mut out, "subtitle", &self.subtitle) {
            Ok(_) => {},
            Err(e) => {
                return Err(e);
            },
        }
        match push_opt_lit(&mut out, "titleaddon", &self.title_addon) {
            Ok(_) => {},
            Err(e) => {
                return Err(e);
            },
        }
        push_opt_uri(&mut out, "url", &self.url);
        push_opt_date(&mut out, "urldate", &self.url_date);
        match push_opt_lit(&mut out, "volume", &self.volume) {
            Ok(_) => {},
            Err(e) => {
                return Err(e);
            },
        }
        match push_opt_lit(&mut out, "volumes", &self.volumes) {
            Ok(_) => {},
            Err(e) => {
                return Err(e);
            },
        }
        push_str_chars(&mut out, "}\n");
        Ok(chars_to_string(&out))
    }
}

/// An entry built from its required fields alone renders as a stanza
/// holding exactly the required keys, in declared order, and nothing else.
pub proof fn lemma_book_minimal(e: Book)
    requires
        e.addendum is None,
        e.chapter is None,
        e.doi is None,
        e.edition is None,
        e.editor is None,
        e.isbn is None,
        e.location is None,
        e.note is None,
        e.number is None,
        e.pages is None,
        e.page_total is None,
        e.publisher is None,
        e.pubstate is None,
        e.series is None,
        e.subtitle is None,
        e.title_addon is None,
        e.url is None,
        e.url_date is None,
        e.volume is None,
        e.volumes is None,
    ensures
        book_text(e) == "@book{"@
            + e.id@
            + ",\n"@
            + field_line("author"@, FieldV::People(e.author@))
            + field_line("title"@, FieldV::Lit(e.title@))
            + field_line("year"@, FieldV::Num(e.year as int))
            + "}\n"@,
{
    assert(book_text(e) =~= "@book{"@
        + e.id@
        + ",\n"@
        + field_line("author"@, FieldV::People(e.author@))
        + field_line("title"@, FieldV::Lit(e.title@))
        + field_line("year"@, FieldV::Num(e.year as int))
        + "}\n"@
    );
}

/// One bibliographic entry of any variant.
#[derive(Debug, Clone)]
#[non_exhaustive]
pub enum Entry {
    Article(Article),
    Thesis(Thesis),
    InProceedings(InProceedings),
    Report(Report),
    Misc(Misc),
    Book(Book),
}

/// The citation key of an entry, whichever variant holds it.
pub open spec fn entry_id(e: Entry) -> Seq<char> {
    match e {
        Entry::Article(a) => a.id@,
        Entry::Thesis(t) => t.id@,
        Entry::InProceedings(p) => p.id@,
        Entry::Report(r) => r.id@,
        Entry::Misc(m) => m.id@,
        Entry::Book(b) => b.id@,
    }
}

/// The stanza an entry renders to, by variant.
pub open spec fn entry_text(e: Entry) -> Seq<char> {
    match e {
        Entry::Article(a) => article_text(a),
        Entry::Thesis(t) => thesis_text(t),
        Entry::InProceedings(p) => inproceedings_text(p),
        Entry::Report(r) => report_text(r),
        Entry::Misc(m) => misc_text(m),
        Entry::Book(b) => book_text(b),
    }
}

/// The first escaping failure in an entry, by variant.
pub open spec fn entry_err(e: Entry) -> Option<EscapeError> {
    match e {
        Entry::Article(a) => article_err(a),
        Entry::Thesis(t) => thesis_err(t),
        Entry::InProceedings(p) => inproceedings_err(p),
        Entry::Report(r) => report_err(r),
        Entry::Misc(m) => misc_err(m),
        Entry::Book(b) => book_err(b),
    }
}

impl Entry {
    /// The citation key this entry carries.
    pub fn id(&self) -> (r: &str)
        ensures
            r@ == entry_id(*self),
    {
        match self {
            Entry::Article(e) => e.id.as_str(),
            Entry::Thesis(e) => e.id.as_str(),
            Entry::InProceedings(e) => e.id.as_str(),
            Entry::Report(e) => e.id.as_str(),
            Entry::Misc(e) => e.id.as_str(),
            Entry::Book(e) => e.id.as_str(),
        }
    }

    /// Render this entry as a BibLaTeX stanza, or report the first escaping
    /// failure among its fields.
    pub fn to_biblatex(&self) -> (r: Result<String, EscapeError>)
        ensures
            match r {
                Ok(out) => entry_err(*self) is None && out@ == entry_text(*self),
                Err(e) => entry_err(*self) == Some(e),
            },
    {
        match self {
            Entry::Article(e) => e.to_biblatex(),
            Entry::Thesis(e) => e.to_biblatex(),
            Entry::InProceedings(e) => e.to_biblatex(),
            Entry::Report(e) => e.to_biblatex(),
            Entry::Misc(e) => e.to_biblatex(),
            Entry::Book(e) => e.to_biblatex(),
        }
    }
}

} // verus!
