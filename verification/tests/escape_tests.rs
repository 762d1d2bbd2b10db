use tex_tools::escape::{utf8_to_tex, EscapeError};

fn cmp(input: &str, expected: &str) {
    let output = utf8_to_tex(input).to_string().unwrap();
    assert_eq!(output, expected);
}

#[test]
fn acute() {
    cmp("É", r"\'{E}");
    cmp("á", r"\'{a}");
}

#[test]
fn grave() {
    cmp("ò", r"\`{o}");
}

#[test]
fn circumflex() {
    cmp("ô", r"\^{o}")
}

#[test]
fn umlaut() {
    cmp("ö", r#"\"{o}"#)
}

#[test]
fn hungarian_umlaut() {
    cmp("ő", r"\H{o}");
    cmp("Ű", r"\H{U}");
}

#[test]
fn tilde() {
    cmp("õ", r"\~{o}")
}

#[test]
fn cedilla() {
    cmp("ç", r"\c{c}")
}

#[test]
fn ogonek() {
    cmp("ą", r"\k{a}")
}

#[test]
fn barred_l() {
    cmp("ł", r"\l{}")
}

#[test]
fn macron() {
    cmp("ō", r"\={o}")
}

#[test]
fn dot_over() {
    cmp("ȯ", r"\.{o}")
}

#[test]
fn dot_under() {
    cmp("ụ", r"\d{u}")
}

#[test]
fn ring() {
    cmp("å", r"\r{a}");
    cmp("\u{212b}", r"\r{A}");
    cmp("\u{00C5}", r"\r{A}");
}

#[test]
fn breve() {
    cmp("ŏ", r"\u{o}")
}

#[test]
fn caron() {
    cmp("š", r"\v{s}")
}

#[test]
fn slashed_o() {
    cmp("ø", r"\o{}");
    cmp("Ø", r"\O{}");
}

#[test]
fn dotless_i() {
    cmp("ı", r"\i")
}

#[test]
fn zalgo_text() {
    cmp("ą\u{0302}\u{0304}", r"\k{\^{\={a}}}");
    cmp("\u{212b}\u{0300}\u{0301}", r"\r{\`{\'{A}}}");
}

#[test]
fn unchanged() {
    fn check_unchanged(s: &str) {
        cmp(s, s);
    }

    check_unchanged("\n");
    check_unchanged("ab e asfjn23 ASADA");
    check_unchanged("(foo)");

    let no_escape = "
        Lorem ipsum dolor sit amet, consectetur adipiscing elit. Proin scelerisque eu urna in aliquet.\
        Phasellus ac nulla a urna sagittis consequat id quis est. Nullam eu ex eget erat accumsan dictum\
        ac lobortis urna. Etiam fermentum ut quam at dignissim. Curabitur vestibulum luctus tellus, sit\
        amet lobortis augue tempor faucibus. Nullam sed felis eget odio elementum euismod in sit amet massa.\
        Vestibulum sagittis purus sit amet eros auctor, sit amet pharetra purus dapibus. Donec ornare metus\
        vel dictum porta. Etiam ut nisl nisi. Nullam rutrum porttitor mi. Donec aliquam ac ipsum eget\
        hendrerit. Cras faucibus, eros ut pharetra imperdiet, est tellus aliquet felis, eget convallis\
        lacus ipsum eget quam. Vivamus orci lorem, maximus ac mi eget, bibendum vulputate massa. In\
        vestibulum dui hendrerit, vestibulum lacus sit amet, posuere erat. Vivamus euismod massa diam,\
        vulputate euismod lectus vestibulum nec. Donec sit amet massa magna. Nunc ipsum nulla, euismod\
        quis lacus at, gravida maximus elit. Duis tristique, nisl nullam.\
        ";

    cmp(no_escape, no_escape);
}

#[test]
fn from_v_latexescape() {
    cmp(
        r"#$%&\^_{}~",
        r"\#\$\%\&\textbackslash{}\textasciicircum{}\_\{\}\textasciitilde{}",
    );
    cmp("", "");
    cmp("#$%&", r"\#\$\%\&");
    cmp("bar_^", r"bar\_\textasciicircum{}");
    cmp("{foo}", r"\{foo\}");
    cmp(r"~\", r"\textasciitilde{}\textbackslash{}");
    cmp(
        r"_% of do$llar an&d #HASHES {I} have in ~ \ latex",
        r"\_\% of do\$llar an\&d \#HASHES \{I\} have in \textasciitilde{} \textbackslash{} latex",
    );
    cmp(
        r#"Lorem ipsum dolor sit amet,#foo>bar&foo"bar\foo/bar"#,
        r#"Lorem ipsum dolor sit amet,\#foo>bar\&foo"bar\textbackslash{}foo/bar"#,
    );
}

#[test]
fn unsupported_character_is_an_error() {
    let r = utf8_to_tex("α").to_string();
    assert_eq!(r, Err(EscapeError::UnsupportedCharacter('α')));
}

#[test]
fn leading_combining_mark_is_an_error() {
    let r = utf8_to_tex("\u{0301}a").to_string();
    assert_eq!(r, Err(EscapeError::MalformedCombiningSequence));
}

#[test]
fn first_failure_wins() {
    // the unsupported character comes first in the decomposed stream
    let r = utf8_to_tex("αβ").to_string();
    assert_eq!(r, Err(EscapeError::UnsupportedCharacter('α')));
}
