use tex_tools::convert::parse_arxiv_category as parse;
use tex_tools::convert::convert_date as conv_date;
use tex_tools::convert::{convert_page_range, csl_to_biblatex, Cause, ConvertErrorKind, CslRecord};
use tex_tools::json::{Json, JsonNum};
use tex_tools::types::{Date, Range};

fn jstr(x: &str) -> Json {
    Json::Str(x.to_string())
}

fn jnum(n: i64) -> Json {
    Json::Num(JsonNum {
        as_int: Some(n),
        as_uint: if n >= 0 { Some(n as u64) } else { None },
    })
}

fn obj(fields: Vec<(&str, Json)>) -> Json {
    Json::Obj(fields.into_iter().map(|(k, v)| (k.to_string(), v)).collect())
}

fn arr(items: Vec<Json>) -> Json {
    Json::Arr(items)
}

fn record(fields: Vec<(&str, Json)>) -> CslRecord {
    CslRecord {
        fields: fields.into_iter().map(|(k, v)| (k.to_string(), v)).collect(),
    }
}

fn name(given: &str, family: &str) -> Json {
    obj(vec![("given", jstr(given)), ("family", jstr(family))])
}

#[test]
fn parse_arxiv_category() {
    assert_eq!(parse("Optimization and Control (math.OC)").unwrap(), "math.OC");
    assert_eq!(parse("Discrete Mathematics (cs.DM)").unwrap(), "cs.DM");
}

#[test]
fn arxiv_category_without_code_fails() {
    assert_eq!(parse("Optimization and Control").unwrap_err(), Cause::InvalidArxivCategory);
    assert_eq!(parse("(math)").unwrap_err(), Cause::InvalidArxivCategory);
}

#[test]
fn convert_date() {
    let convert = |v: &Json| conv_date(v).unwrap();
    assert_eq!(
        convert(&obj(vec![("date-parts", arr(vec![arr(vec![jnum(2001), jnum(1), jnum(25)])]))])),
        Date::full(2001, 1, 25)
    );
    assert_eq!(
        convert(&obj(vec![("date-parts", arr(vec![arr(vec![jnum(2001), jnum(1)])]))])),
        Date::year_month(2001, 1)
    );
    assert_eq!(
        convert(&obj(vec![("date-parts", arr(vec![arr(vec![jnum(2001)])]))])),
        Date::year(2001)
    );
    assert_eq!(convert(&obj(vec![("raw", jstr("2001-01-25"))])), Date::full(2001, 1, 25));
    assert_eq!(convert(&obj(vec![("raw", jstr("2001-01"))])), Date::year_month(2001, 1));
    assert_eq!(convert(&obj(vec![("raw", jstr("2001-1"))])), Date::year_month(2001, 1));
    assert_eq!(convert(&obj(vec![("raw", jstr("2001"))])), Date::year(2001));
}

#[test]
fn date_parts_and_raw_agree() {
    let parts = obj(vec![("date-parts", arr(vec![arr(vec![jnum(2001), jnum(1), jnum(25)])]))]);
    let raw = obj(vec![("raw", jstr("2001-01-25"))]);
    assert_eq!(conv_date(&parts).unwrap(), conv_date(&raw).unwrap());
    assert_eq!(conv_date(&parts).unwrap(), Date::full(2001, 1, 25));
}

#[test]
fn bad_dates_fail() {
    assert_eq!(conv_date(&obj(vec![("raw", jstr("20011"))])).unwrap_err(), Cause::InvalidDate);
    assert_eq!(
        conv_date(&obj(vec![("raw", jstr("2001-13"))])).unwrap_err(),
        Cause::InvalidDate
    );
    assert_eq!(
        conv_date(&obj(vec![("raw", jstr("2001-1-32"))])).unwrap_err(),
        Cause::InvalidDate
    );
    // the outer array must hold exactly one date
    assert_eq!(
        conv_date(
            &obj(vec![(
                "date-parts",
                arr(vec![arr(vec![jnum(2001)]), arr(vec![jnum(2002)])])
            )])
        )
        .unwrap_err(),
        Cause::InvalidDate
    );
    // a non-integer component
    assert_eq!(
        conv_date(&obj(vec![("date-parts", arr(vec![arr(vec![jstr("2001")])]))])).unwrap_err(),
        Cause::InvalidNumber
    );
    // neither date-parts nor raw
    assert_eq!(conv_date(&obj(vec![])).unwrap_err(), Cause::InvalidDate);
}

#[test]
fn page_ranges() {
    assert_eq!(
        convert_page_range(&jstr("12-34")).unwrap(),
        Range::Multi { start: 12, end: Some(34) }
    );
    assert_eq!(convert_page_range(&jstr("12")).unwrap(), Range::Single(12));
    assert_eq!(convert_page_range(&jstr("abc")).unwrap_err(), Cause::InvalidPageRange);
}

fn article_record_without(missing: &str) -> CslRecord {
    let mut fields = vec![
        ("id", jstr("k1")),
        ("type", jstr("article-journal")),
        ("author", arr(vec![name("Jane", "Doe")])),
        ("title", jstr("A Title")),
        ("container-title", jstr("A Journal")),
        ("issued", obj(vec![("raw", jstr("2001"))])),
    ];
    fields.retain(|(k, _)| *k != missing);
    record(fields)
}

#[test]
fn malformed_page_aborts_conversion() {
    let mut rec = article_record_without("");
    rec.fields.push(("page".to_string(), jstr("abc")));
    let err = csl_to_biblatex(&rec).unwrap_err();
    assert_eq!(err.id.as_deref(), Some("k1"));
    assert!(matches!(
        err.kind,
        ConvertErrorKind::MalformedField(ref f, Cause::InvalidPageRange) if f == "page"
    ));
}

#[test]
fn missing_author_fails_for_every_type() {
    for ty in ["article-journal", "thesis", "paper-conference", "report", "book"] {
        let rec = record(vec![
            ("id", jstr("k1")),
            ("type", jstr(ty)),
            ("title", jstr("A Title")),
        ]);
        let err = csl_to_biblatex(&rec).unwrap_err();
        assert_eq!(err.id.as_deref(), Some("k1"), "type {}", ty);
        assert!(
            matches!(err.kind, ConvertErrorKind::MissingRequiredField(ref f) if f == "author"),
            "type {}",
            ty
        );
    }
    // the two article subtypes likewise demand an author first
    for genre in ["Working Paper", "arXiv"] {
        let rec = record(vec![
            ("id", jstr("k1")),
            ("type", jstr("article")),
            ("genre", jstr(genre)),
            ("title", jstr("A Title")),
        ]);
        let err = csl_to_biblatex(&rec).unwrap_err();
        assert!(
            matches!(err.kind, ConvertErrorKind::MissingRequiredField(ref f) if f == "author"),
            "genre {}",
            genre
        );
    }
}

#[test]
fn unknown_entry_type() {
    let rec = record(vec![("id", jstr("k1")), ("type", jstr("webpage"))]);
    let err = csl_to_biblatex(&rec).unwrap_err();
    assert!(matches!(err.kind, ConvertErrorKind::UnknownEntryType(ref t) if t == "webpage"));
    assert_eq!(err.describe(), "entry `k1`: no BibLaTeX entry type for CSL type `webpage`");
}

#[test]
fn unknown_article_subtype() {
    let rec = record(vec![
        ("id", jstr("k1")),
        ("type", jstr("article")),
        ("genre", jstr("  Blog Post ")),
    ]);
    let err = csl_to_biblatex(&rec).unwrap_err();
    assert!(
        matches!(err.kind, ConvertErrorKind::UnknownArticleSubtype(ref g) if g == "blog post")
    );
}

#[test]
fn missing_id_and_type() {
    let err = csl_to_biblatex(&record(vec![("type", jstr("book"))])).unwrap_err();
    assert_eq!(err.id, None);
    assert!(matches!(err.kind, ConvertErrorKind::MissingRequiredField(ref f) if f == "id"));

    let err = csl_to_biblatex(&record(vec![("id", jstr("k1"))])).unwrap_err();
    assert_eq!(err.id.as_deref(), Some("k1"));
    assert!(matches!(err.kind, ConvertErrorKind::MissingRequiredField(ref f) if f == "type"));
}

#[test]
fn malformed_name_object() {
    let rec = record(vec![
        ("id", jstr("k1")),
        ("type", jstr("article-journal")),
        ("author", arr(vec![obj(vec![("given", jstr("Jane"))])])),
    ]);
    let err = csl_to_biblatex(&rec).unwrap_err();
    assert!(matches!(
        err.kind,
        ConvertErrorKind::MalformedField(ref f, Cause::InvalidNameObject) if f == "author"
    ));
}

#[test]
fn malformed_string_field() {
    let mut rec = article_record_without("title");
    rec.fields.push(("title".to_string(), jnum(7)));
    let err = csl_to_biblatex(&rec).unwrap_err();
    assert!(matches!(
        err.kind,
        ConvertErrorKind::MalformedField(ref f, Cause::InvalidString) if f == "title"
    ));
}

#[test]
fn genre_is_normalized_before_dispatch() {
    // mixed case and surrounding whitespace still select the subtype
    let rec = record(vec![
        ("id", jstr("k1")),
        ("type", jstr("article")),
        ("genre", jstr("  WORKING Paper\t")),
        ("author", arr(vec![name("Jane", "Doe")])),
        ("title", jstr("T")),
        ("issued", obj(vec![("raw", jstr("2020"))])),
        ("publisher", jstr("Inst")),
    ]);
    let entry = csl_to_biblatex(&rec).unwrap();
    let text = entry.to_biblatex().unwrap();
    assert!(text.contains("type = {Working paper},"), "{}", text);
}
