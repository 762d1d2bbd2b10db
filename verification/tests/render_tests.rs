use tex_tools::convert::{csl_to_biblatex, CslRecord};
use tex_tools::entry::{Article, Book, InProceedings, Misc, Report, Thesis};
use tex_tools::json::Json;
use tex_tools::types::{Date, List, Literal, Name, PubState, Range};

fn one_author() -> List<Name> {
    List(vec![Name::new("Jane".to_string(), "Doe".to_string())])
}

fn lit(s: &str) -> Literal {
    Literal(s.to_string())
}

#[test]
fn article_minimal_stanza() {
    let a = Article::new(
        "k1".to_string(),
        one_author(),
        lit("A Title"),
        lit("A Journal"),
        2001,
    );
    assert_eq!(
        a.to_biblatex().unwrap(),
        "@article{k1,\n    author = {Doe, Jane},\n    title = {A Title},\n    journaltitle = {A Journal},\n    year = {2001},\n}\n"
    );
}

#[test]
fn thesis_minimal_stanza() {
    let t = Thesis::new(
        "k2".to_string(),
        one_author(),
        lit("A Thesis"),
        lit("PhD thesis"),
        List(vec![lit("A University")]),
        1999,
    );
    assert_eq!(
        t.to_biblatex().unwrap(),
        "@thesis{k2,\n    author = {Doe, Jane},\n    title = {A Thesis},\n    type = {PhD thesis},\n    institution = {A University},\n    year = {1999},\n}\n"
    );
}

#[test]
fn inproceedings_minimal_stanza() {
    let p = InProceedings::new(
        "k3".to_string(),
        one_author(),
        lit("A Paper"),
        lit("Proceedings of X"),
        2010,
    );
    assert_eq!(
        p.to_biblatex().unwrap(),
        "@inproceedings{k3,\n    author = {Doe, Jane},\n    title = {A Paper},\n    booktitle = {Proceedings of X},\n    year = {2010},\n}\n"
    );
}

#[test]
fn report_minimal_stanza() {
    let r = Report::new(
        "k4".to_string(),
        one_author(),
        lit("A Report"),
        lit("Technical report"),
        List(vec![lit("An Institute")]),
        2015,
    );
    assert_eq!(
        r.to_biblatex().unwrap(),
        "@report{k4,\n    author = {Doe, Jane},\n    title = {A Report},\n    type = {Technical report},\n    institution = {An Institute},\n    year = {2015},\n}\n"
    );
}

#[test]
fn misc_minimal_stanza() {
    let m = Misc::new("k5".to_string(), one_author(), lit("Something"), 2020);
    assert_eq!(
        m.to_biblatex().unwrap(),
        "@misc{k5,\n    author = {Doe, Jane},\n    title = {Something},\n    year = {2020},\n}\n"
    );
}

#[test]
fn book_minimal_stanza() {
    let b = Book::new("k6".to_string(), one_author(), lit("A Book"), 1984);
    assert_eq!(
        b.to_biblatex().unwrap(),
        "@book{k6,\n    author = {Doe, Jane},\n    title = {A Book},\n    year = {1984},\n}\n"
    );
}

#[test]
fn optional_fields_render_in_declared_order() {
    let mut a = Article::new(
        "k7".to_string(),
        one_author(),
        lit("T"),
        lit("J"),
        2001,
    );
    a.volume = Some(lit("9"));
    a.month = Some(7);
    a.pages = Some(Range::Multi { start: 12, end: Some(34) });
    a.pubstate = Some(PubState::Submitted);
    a.url_date = Some(Date::full(2021, 5, 3));
    assert_eq!(
        a.to_biblatex().unwrap(),
        "@article{k7,\n    author = {Doe, Jane},\n    title = {T},\n    journaltitle = {J},\n    year = {2001},\n    month = {7},\n    pages = {12-34},\n    pubstate = {submitted},\n    urldate = {2021-5-3},\n    volume = {9},\n}\n"
    );
}

#[test]
fn ranges_and_negative_years_render_exactly() {
    let mut m = Misc::new("k8".to_string(), one_author(), lit("Old"), -44);
    m.pages = Some(Range::Multi { start: 1, end: None });
    assert_eq!(
        m.to_biblatex().unwrap(),
        "@misc{k8,\n    author = {Doe, Jane},\n    title = {Old},\n    year = {-44},\n    pages = {1-},\n}\n"
    );
}

#[test]
fn names_and_literals_are_escaped() {
    let authors = List(vec![
        Name::new("Paul".to_string(), "Erdős".to_string()),
        Name::new("Witold".to_string(), "Gołąb".to_string()),
    ]);
    let a = Article::new(
        "k9".to_string(),
        authors,
        lit("100% Proof & More"),
        lit("Journal of ö"),
        2001,
    );
    assert_eq!(
        a.to_biblatex().unwrap(),
        "@article{k9,\n    author = {Erd\\H{o}s, Paul and Go\\l{}\\k{a}b, Witold},\n    title = {100\\% Proof \\& More},\n    journaltitle = {Journal of \\\"{o}},\n    year = {2001},\n}\n"
    );
}

fn jstr(x: &str) -> Json {
    Json::Str(x.to_string())
}

fn obj(fields: Vec<(&str, Json)>) -> Json {
    Json::Obj(fields.into_iter().map(|(k, v)| (k.to_string(), v)).collect())
}

fn record(fields: Vec<(&str, Json)>) -> CslRecord {
    CslRecord {
        fields: fields.into_iter().map(|(k, v)| (k.to_string(), v)).collect(),
    }
}

#[test]
fn article_record_to_stanza() {
    let rec = record(vec![
        ("id", jstr("k10")),
        ("type", jstr("article-journal")),
        (
            "author",
            Json::Arr(vec![
                obj(vec![("given", jstr("Jane")), ("family", jstr("Doe"))]),
                obj(vec![("given", jstr("Richard")), ("family", jstr("Roe"))]),
            ]),
        ),
        ("title", jstr("A Title")),
        ("container-title", jstr("A Journal")),
        ("issued", obj(vec![("raw", jstr("2001-7"))])),
        ("DOI", jstr("10.1/xyz")),
        ("issue", jstr("3")),
        ("page", jstr("12-34")),
        ("volume", jstr("9")),
    ]);
    let entry = csl_to_biblatex(&rec).unwrap();
    assert_eq!(entry.id(), "k10");
    assert_eq!(
        entry.to_biblatex().unwrap(),
        "@article{k10,\n    author = {Doe, Jane and Roe, Richard},\n    title = {A Title},\n    journaltitle = {A Journal},\n    year = {2001},\n    doi = {10.1/xyz},\n    month = {7},\n    number = {3},\n    pages = {12-34},\n    volume = {9},\n}\n"
    );
}

#[test]
fn arxiv_record_to_stanza() {
    let rec = record(vec![
        ("id", jstr("k11")),
        ("type", jstr("article")),
        ("genre", jstr("arXiv")),
        (
            "author",
            Json::Arr(vec![obj(vec![("given", jstr("Jane")), ("family", jstr("Doe"))])]),
        ),
        ("title", jstr("Cool Things")),
        ("issued", obj(vec![("raw", jstr("2021-5"))])),
        ("url", jstr("https://arxiv.org/abs/2105.01234v2")),
        (
            "categories",
            Json::Arr(vec![jstr("Optimization and Control (math.OC)")]),
        ),
        ("version", jstr("2")),
    ]);
    let entry = csl_to_biblatex(&rec).unwrap();
    assert_eq!(
        entry.to_biblatex().unwrap(),
        "@misc{k11,\n    author = {Doe, Jane},\n    title = {Cool Things},\n    year = {2021},\n    eprint = {2105.01234v2},\n    eprintclass = {math.OC},\n    eprinttype = {arXiv},\n    version = {2},\n}\n"
    );
}

#[test]
fn book_record_to_stanza() {
    let rec = record(vec![
        ("id", jstr("k12")),
        ("type", jstr("book")),
        (
            "author",
            Json::Arr(vec![obj(vec![("given", jstr("Jane")), ("family", jstr("Doe"))])]),
        ),
        ("title", jstr("A Book")),
        ("issued", obj(vec![("raw", jstr("1984"))])),
        ("publisher", jstr("Big Press")),
        ("publisher-place", jstr("Springfield")),
        ("ISBN", jstr("978-3-16-148410-0")),
        ("page", jstr("400"))
    ]);
    let entry = csl_to_biblatex(&rec).unwrap();
    assert_eq!(
        entry.to_biblatex().unwrap(),
        "@book{k12,\n    author = {Doe, Jane},\n    title = {A Book},\n    year = {1984},\n    isbn = {978-3-16-148410-0},\n    location = {Springfield},\n    pages = {400},\n    publisher = {Big Press},\n}\n"
    );
}

#[test]
fn rendering_reports_escape_failures() {
    let a = Article::new(
        "k13".to_string(),
        one_author(),
        lit("Greek α inside"),
        lit("J"),
        2001,
    );
    assert!(a.to_biblatex().is_err());
}

#[test]
fn thesis_record_to_stanza() {
    let rec = record(vec![
        ("id", jstr("t1")),
        ("type", jstr("thesis")),
        (
            "author",
            Json::Arr(vec![obj(vec![("given", jstr("Jane")), ("family", jstr("Doe"))])]),
        ),
        ("title", jstr("Deep Thoughts")),
        ("issued", obj(vec![("raw", jstr("1999-6"))])),
        ("publisher", jstr("A University")),
        ("genre", jstr("PhD thesis")),
    ]);
    let entry = csl_to_biblatex(&rec).unwrap();
    assert_eq!(
        entry.to_biblatex().unwrap(),
        "@thesis{t1,\n    author = {Doe, Jane},\n    title = {Deep Thoughts},\n    type = {PhD thesis},\n    institution = {A University},\n    year = {1999},\n    month = {6},\n}\n"
    );
}

#[test]
fn conference_record_to_stanza() {
    let rec = record(vec![
        ("id", jstr("c1")),
        ("type", jstr("paper-conference")),
        (
            "author",
            Json::Arr(vec![obj(vec![("given", jstr("Jane")), ("family", jstr("Doe"))])]),
        ),
        ("title", jstr("A Paper")),
        ("issued", obj(vec![("raw", jstr("2010"))])),
        ("container-title", jstr("Proc. of X")),
        ("DOI", jstr("10.2/abc")),
        ("publisher", jstr("ACM")),
        ("publisher-place", jstr("New York")),
    ]);
    let entry = csl_to_biblatex(&rec).unwrap();
    assert_eq!(
        entry.to_biblatex().unwrap(),
        "@inproceedings{c1,\n    author = {Doe, Jane},\n    title = {A Paper},\n    booktitle = {Proc. of X},\n    year = {2010},\n    doi = {10.2/abc},\n    location = {New York},\n    publisher = {ACM},\n}\n"
    );
}

#[test]
fn report_record_to_stanza() {
    let rec = record(vec![
        ("id", jstr("r1")),
        ("type", jstr("report")),
        (
            "author",
            Json::Arr(vec![obj(vec![("given", jstr("Jane")), ("family", jstr("Doe"))])]),
        ),
        ("title", jstr("A Report")),
        ("issued", obj(vec![("raw", jstr("2015"))])),
        ("publisher", jstr("CSIRO")),
        ("genre", jstr("Technical report")),
    ]);
    let entry = csl_to_biblatex(&rec).unwrap();
    assert_eq!(
        entry.to_biblatex().unwrap(),
        "@report{r1,\n    author = {Doe, Jane},\n    title = {A Report},\n    type = {Technical report},\n    institution = {CSIRO},\n    year = {2015},\n}\n"
    );
}

#[test]
fn working_paper_record_to_stanza() {
    let rec = record(vec![
        ("id", jstr("w1")),
        ("type", jstr("article")),
        ("genre", jstr("working paper")),
        (
            "author",
            Json::Arr(vec![obj(vec![("given", jstr("Jane")), ("family", jstr("Doe"))])]),
        ),
        ("title", jstr("WP")),
        ("issued", obj(vec![("raw", jstr("2005-11"))])),
        ("publisher", jstr("NBER")),
        ("number", jstr("12345")),
        ("url", jstr("http://x.y/z")),
    ]);
    let entry = csl_to_biblatex(&rec).unwrap();
    assert_eq!(
        entry.to_biblatex().unwrap(),
        "@report{w1,\n    author = {Doe, Jane},\n    title = {WP},\n    type = {Working paper},\n    institution = {NBER},\n    year = {2005},\n    month = {11},\n    number = {12345},\n    url = {http://x.y/z},\n}\n"
    );
}
