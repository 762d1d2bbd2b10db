//! Unicode-to-TeX escaping.
//!
//! The input string is decomposed into Unicode Normalization Form KD, so that
//! precomposed accented letters become a base character followed by combining
//! marks.  Every decomposed character is then classified as verbatim (copied
//! through), escaped (replaced by a fixed TeX macro), or a combining mark
//! (turned into a TeX accent command wrapped around the glyph it modifies).
//! A character outside those classes, or a combining mark with no preceding
//! glyph, is reported as an error rather than escaped.

use vstd::prelude::*;

use crate::text::{chars_to_string, push_str_chars};
use unicode_normalization::UnicodeNormalization;

verus! {

/// Why a string could not be escaped.
#[derive(Clone, Copy, Debug, PartialEq, Eq, Structural)]
pub enum EscapeError {
    /// A character that is neither TeX-safe, escapable, nor a known
    /// combining mark.
    UnsupportedCharacter(char),
    /// The decomposed input begins with a combining mark, which has no glyph
    /// to attach to.
    MalformedCombiningSequence,
}

/// ASCII letters and digits.
pub open spec fn is_ascii_alnum(c: char) -> bool {
    let u = c as u32;
    (48 <= u && u <= 57) || (65 <= u && u <= 90) || (97 <= u && u <= 122)
}

/// ASCII whitespace: space, tab, newline, form feed, carriage return.
pub open spec fn is_ascii_ws(c: char) -> bool {
    let u = c as u32;
    u == 32 || u == 9 || u == 10 || u == 12 || u == 13
}

/// ASCII punctuation and symbols.
pub open spec fn is_ascii_punct(c: char) -> bool {
    let u = c as u32;
    (33 <= u && u <= 47) || (58 <= u && u <= 64) || (91 <= u && u <= 96) || (123 <= u && u <= 126)
}

/// Characters with a special meaning in TeX source, replaced by macros.
pub open spec fn is_tex_special(c: char) -> bool {
    let u = c as u32;
    u == 35 || u == 36 || u == 37 || u == 38  // # $ % &
     || u == 92 || u == 94 || u == 95  // \ ^ _
     || u == 123 || u == 125 || u == 126  // { } ~
}

/// Precomposed letters with no ASCII decomposition that TeX spells as macros.
pub open spec fn is_special_letter(c: char) -> bool {
    let u = c as u32;
    u == 0x142 || u == 0xF8 || u == 0xD8 || u == 0x131
}

/// Characters copied to the output unchanged.
pub open spec fn is_verbatim_char(c: char) -> bool {
    is_ascii_alnum(c) || is_ascii_ws(c) || (is_ascii_punct(c) && !is_tex_special(c))
}

/// Characters replaced by a fixed macro string.
pub open spec fn is_escaped_char(c: char) -> bool {
    is_tex_special(c) || is_special_letter(c)
}

/// The recognized combining diacritical marks.
pub open spec fn is_combining_mark(c: char) -> bool {
    let u = c as u32;
    u == 0x300 || u == 0x301 || u == 0x302 || u == 0x303 || u == 0x304 || u == 0x306 || u == 0x307
        || u == 0x308 || u == 0x30A || u == 0x30B || u == 0x30C || u == 0x323 || u == 0x327
        || u == 0x328
}

/// Every character the escaper knows what to do with.
pub open spec fn is_supported_char(c: char) -> bool {
    is_verbatim_char(c) || is_escaped_char(c) || is_combining_mark(c)
}

/// The macro text that replaces an escaped character.
pub open spec fn escape_text(c: char) -> Seq<char> {
    let u = c as u32;
    if u == 92 {
        "\\textbackslash{}"@
    } else if u == 126 {
        "\\textasciitilde{}"@
    } else if u == 35 {
        "\\#"@
    } else if u == 36 {
        "\\$"@
    } else if u == 37 {
        "\\%"@
    } else if u == 38 {
        "\\&"@
    } else if u == 95 {
        "\\_"@
    } else if u == 123 {
        "\\{"@
    } else if u == 125 {
        "\\}"@
    } else if u == 94 {
        "\\textasciicircum{}"@
    } else if u == 0x142 {
        "\\l{}"@
    } else if u == 0xF8 {
        "\\o{}"@
    } else if u == 0xD8 {
        "\\O{}"@
    } else {
        "\\i"@
    }
}

/// The accent command that a combining mark contributes, written before the
/// brace-wrapped glyph it modifies.
pub open spec fn accent_prefix(c: char) -> Seq<char> {
    let u = c as u32;
    if u == 0x300 {
        "\\`"@
    } else if u == 0x301 {
        "\\'"@
    } else if u == 0x302 {
        "\\^"@
    } else if u == 0x303 {
        "\\~"@
    } else if u == 0x304 {
        "\\="@
    } else if u == 0x306 {
        "\\u"@
    } else if u == 0x307 {
        "\\."@
    } else if u == 0x308 {
        "\\\""@
    } else if u == 0x30A {
        "\\r"@
    } else if u == 0x30B {
        "\\H"@
    } else if u == 0x30C {
        "\\v"@
    } else if u == 0x323 {
        "\\d"@
    } else if u == 0x327 {
        "\\c"@
    } else {
        "\\k"@
    }
}

/// The text a single non-combining character contributes to the output.
pub open spec fn char_out(c: char) -> Seq<char> {
    if is_verbatim_char(c) {
        seq![c]
    } else {
        escape_text(c)
    }
}

/// The number of combining marks at the front of `s`.
pub open spec fn marks_len(s: Seq<char>) -> nat
    decreases s.len(),
{
    if s.len() == 0 || !is_combining_mark(s[0]) {
        0
    } else {
        1 + marks_len(s.skip(1))
    }
}

pub proof fn lemma_marks_len_le(s: Seq<char>)
    ensures
        marks_len(s) <= s.len(),
    decreases s.len(),
{
    if s.len() > 0 && is_combining_mark(s[0]) {
        lemma_marks_len_le(s.skip(1));
    }
}

/// Where the first `k` characters of `s` are combining marks and the next one
/// (if any) is not, the leading run of marks has length exactly `k`.
pub proof fn lemma_marks_len_exact(s: Seq<char>, k: int)
    requires
        0 <= k <= s.len(),
        forall|t: int| 0 <= t < k ==> is_combining_mark(s[t]),
        k < s.len() ==> !is_combining_mark(s[k]),
    ensures
        marks_len(s) == k,
    decreases k,
{
    if k > 0 {
        lemma_marks_len_exact(s.skip(1), k - 1);
    }
}

/// One glyph group rendered: the accent prefixes of the combining marks, in
/// the order the marks appear (so the first mark is the outermost wrapper),
/// each opening a brace; then the glyph's own text; then the closing braces.
pub open spec fn escape_group(b: char, marks: Seq<char>) -> Seq<char>
    decreases marks.len(),
{
    if marks.len() == 0 {
        char_out(b)
    } else {
        accent_prefix(marks[0]) + seq!['{'] + escape_group(b, marks.skip(1)) + seq!['}']
    }
}

/// The escaped form of a decomposed character sequence: the input is split
/// into groups, each a non-combining character followed by its combining
/// marks, and every group renders as [`escape_group`].
///
/// Meaningful when `scan_err(s, true)` is `None`; arbitrary otherwise.
pub open spec fn escape_seq(s: Seq<char>) -> Seq<char>
    decreases s.len(),
    via escape_seq_decreases
{
    if s.len() == 0 {
        Seq::empty()
    } else {
        let k = marks_len(s.skip(1)) as int;
        escape_group(s[0], s.skip(1).take(k)) + escape_seq(s.skip(1 + k))
    }
}

#[via_fn]
proof fn escape_seq_decreases(s: Seq<char>) {
    if s.len() > 0 {
        lemma_marks_len_le(s.skip(1));
    }
}

/// The first reason, in stream order, why a decomposed sequence cannot be
/// escaped: an unsupported character, or (when `first` is set) a combining
/// mark at the very start.  `None` when the whole of `s` escapes cleanly.
pub open spec fn scan_err(s: Seq<char>, first: bool) -> Option<EscapeError>
    decreases s.len(),
{
    if s.len() == 0 {
        None
    } else if !is_supported_char(s[0]) {
        Some(EscapeError::UnsupportedCharacter(s[0]))
    } else if first && is_combining_mark(s[0]) {
        Some(EscapeError::MalformedCombiningSequence)
    } else {
        scan_err(s.skip(1), false)
    }
}

/// Skipping a supported prefix does not change the scan outcome.
proof fn lemma_scan_err_skip(s: Seq<char>, m: int)
    requires
        0 <= m <= s.len(),
        forall|t: int| 0 <= t < m ==> is_supported_char(s[t]),
    ensures
        scan_err(s, false) == scan_err(s.skip(m), false),
    decreases m,
{
    if m > 0 {
        lemma_scan_err_skip(s.skip(1), m - 1);
        assert(s.skip(1).skip(m - 1) =~= s.skip(m));
    } else {
        assert(s.skip(0) =~= s);
    }
}

/// The accent prefixes and opening braces of a run of combining marks.
pub open spec fn prefixes(marks: Seq<char>) -> Seq<char>
    decreases marks.len(),
{
    if marks.len() == 0 {
        Seq::empty()
    } else {
        accent_prefix(marks[0]) + seq!['{'] + prefixes(marks.skip(1))
    }
}

/// `n` closing braces.
pub open spec fn closes(n: nat) -> Seq<char> {
    Seq::new(n, |i: int| '}')
}

proof fn lemma_prefixes_push(marks: Seq<char>, c: char)
    ensures
        prefixes(marks.push(c)) == prefixes(marks) + accent_prefix(c) + seq!['{'],
    decreases marks.len(),
{
    let mp = marks.push(c);
    if marks.len() == 0 {
        assert(mp[0] == c);
        assert(mp.skip(1) =~= Seq::<char>::empty());
        assert(prefixes(mp.skip(1)) == Seq::<char>::empty());
        assert(prefixes(mp) == accent_prefix(c) + seq!['{'] + prefixes(mp.skip(1)));
        assert(prefixes(mp) =~= prefixes(marks) + accent_prefix(c) + seq!['{']);
    } else {
        lemma_prefixes_push(marks.skip(1), c);
        assert(mp[0] == marks[0]);
        assert(mp.skip(1) =~= marks.skip(1).push(c));
        assert(prefixes(mp) == accent_prefix(marks[0]) + seq!['{'] + prefixes(
            marks.skip(1).push(c),
        ));
        assert(prefixes(marks) == accent_prefix(marks[0]) + seq!['{'] + prefixes(marks.skip(1)));
        assert(prefixes(mp) =~= prefixes(marks) + accent_prefix(c) + seq!['{']);
    }
}

/// A rendered group flattened: all prefixes, then the glyph text, then all
/// closing braces.
proof fn lemma_group_flat(b: char, marks: Seq<char>)
    ensures
        escape_group(b, marks) == prefixes(marks) + char_out(b) + closes(marks.len()),
    decreases marks.len(),
{
    if marks.len() == 0 {
        assert(escape_group(b, marks) =~= prefixes(marks) + char_out(b) + closes(0));
    } else {
        lemma_group_flat(b, marks.skip(1));
        assert(closes(marks.len()) =~= closes((marks.len() - 1) as nat).push('}'));
        assert(escape_group(b, marks) =~= prefixes(marks) + char_out(b) + closes(marks.len()));
    }
}

/// Classification: is `c` copied through verbatim?
fn char_is_verbatim(c: char) -> (r: bool)
    ensures
        r == is_verbatim_char(c),
{
    let u = c as u32;
    (48 <= u && u <= 57) || (65 <= u && u <= 90) || (97 <= u && u <= 122) || u == 32 || u == 9 || u
        == 10 || u == 12 || u == 13 || (((33 <= u && u <= 47) || (58 <= u && u <= 64) || (91 <= u
        && u <= 96) || (123 <= u && u <= 126)) && !(u == 35 || u == 36 || u == 37 || u == 38 || u
        == 92 || u == 94 || u == 95 || u == 123 || u == 125 || u == 126))
}

/// Classification: is `c` a recognized combining mark?
fn char_is_combining(c: char) -> (r: bool)
    ensures
        r == is_combining_mark(c),
{
    let u = c as u32;
    u == 0x300 || u == 0x301 || u == 0x302 || u == 0x303 || u == 0x304 || u == 0x306 || u == 0x307
        || u == 0x308 || u == 0x30A || u == 0x30B || u == 0x30C || u == 0x323 || u == 0x327 || u
        == 0x328
}

/// Classification: does the escaper know `c` at all?
fn char_is_supported(c: char) -> (r: bool)
    ensures
        r == is_supported_char(c),
{
    let u = c as u32;
    char_is_verbatim(c) || char_is_combining(c) || u == 35 || u == 36 || u == 37 || u == 38 || u
        == 92 || u == 94 || u == 95 || u == 123 || u == 125 || u == 126 || u == 0x142 || u == 0xF8
        || u == 0xD8 || u == 0x131
}

/// The macro string for an escaped character.
fn escape_text_of(c: char) -> (r: &'static str)
    requires
        is_escaped_char(c),
    ensures
        r@ == escape_text(c),
{
    let u = c as u32;
    if u == 92 {
        "\\textbackslash{}"
    } else if u == 126 {
        "\\textasciitilde{}"
    } else if u == 35 {
        "\\#"
    } else if u == 36 {
        "\\$"
    } else if u == 37 {
        "\\%"
    } else if u == 38 {
        "\\&"
    } else if u == 95 {
        "\\_"
    } else if u == 123 {
        "\\{"
    } else if u == 125 {
        "\\}"
    } else if u == 94 {
        "\\textasciicircum{}"
    } else if u == 0x142 {
        "\\l{}"
    } else if u == 0xF8 {
        "\\o{}"
    } else if u == 0xD8 {
        "\\O{}"
    } else {
        "\\i"
    }
}

/// The accent command prefix for a combining mark.
fn accent_prefix_of(c: char) -> (r: &'static str)
    requires
        is_combining_mark(c),
    ensures
        r@ == accent_prefix(c),
{
    let u = c as u32;
    if u == 0x300 {
        "\\`"
    } else if u == 0x301 {
        "\\'"
    } else if u == 0x302 {
        "\\^"
    } else if u == 0x303 {
        "\\~"
    } else if u == 0x304 {
        "\\="
    } else if u == 0x306 {
        "\\u"
    } else if u == 0x307 {
        "\\."
    } else if u == 0x308 {
        "\\\""
    } else if u == 0x30A {
        "\\r"
    } else if u == 0x30B {
        "\\H"
    } else if u == 0x30C {
        "\\v"
    } else if u == 0x323 {
        "\\d"
    } else if u == 0x327 {
        "\\c"
    } else {
        "\\k"
    }
}

/// Escape the tail of `cs` starting at `i`, which must sit on a group
/// boundary: one glyph group at a time, recursing for the rest.
fn escape_from(cs: &Vec<char>, i: usize) -> (r: Result<Vec<char>, EscapeError>)
    requires
        i <= cs.len(),
        i < cs.len() ==> !is_combining_mark(cs@[i as int]),
    ensures
        match r {
            Ok(out) => scan_err(cs@.skip(i as int), false) is None && out@ == escape_seq(
                cs@.skip(i as int),
            ),
            Err(e) => scan_err(cs@.skip(i as int), false) == Some(e),
        },
    decreases cs.len() - i,
{
    let ghost s = cs@.skip(i as int);
    if i == cs.len() {
        assert(s =~= Seq::<char>::empty());
        return Ok(Vec::new());
    }
    let b = cs[i];
    if !char_is_supported(b) {
        return Err(EscapeError::UnsupportedCharacter(b));
    }
    let mut out: Vec<char> = Vec::new();
    let mut j = i + 1;
    loop
        invariant
            i < j <= cs.len(),
            i < cs.len(),
            forall|t: int| i < t < j ==> is_combining_mark(cs@[t]),
            out@ == prefixes(cs@.subrange(i + 1, j as int)),
        ensures
            i < j <= cs.len(),
            forall|t: int| i < t < j ==> is_combining_mark(cs@[t]),
            j < cs.len() ==> !is_combining_mark(cs@[j as int]),
            out@ == prefixes(cs@.subrange(i + 1, j as int)),
        decreases cs.len() - j,
    {
        if j >= cs.len() {
            break ;
        }
        let c = cs[j];
        if !char_is_combining(c) {
            break ;
        }
        push_str_chars(&mut out, accent_prefix_of(c));
        out.push('{');
        proof {
            lemma_prefixes_push(cs@.subrange(i + 1, j as int), c);
            assert(cs@.subrange(i + 1, j + 1) =~= cs@.subrange(i + 1, j as int).push(cs@[j as int]));
            assert(out@ =~= prefixes(cs@.subrange(i + 1, j + 1)));
        }
        j = j + 1;
    }
    let ghost marks = cs@.subrange(i + 1, j as int);
    let ghost k = (j - i - 1) as int;
    if char_is_verbatim(b) {
        out.push(b);
        assert(out@ == prefixes(marks) + char_out(b)) by {
            assert(out@ =~= prefixes(marks) + char_out(b));
        }
    } else {
        push_str_chars(&mut out, escape_text_of(b));
    }
    let mut braces = j - i - 1;
    while braces > 0
        invariant
            braces <= k,
            out@ == prefixes(marks) + char_out(b) + closes((k - braces) as nat),
        decreases braces,
    {
        out.push('}');
        proof {
            assert(closes((k - braces + 1) as nat) =~= closes((k - braces) as nat).push('}'));
            assert(out@ =~= prefixes(marks) + char_out(b) + closes((k - braces + 1) as nat));
        }
        braces = braces - 1;
    }
    assert(out@ == escape_group(cs@[i as int], marks)) by {
        lemma_group_flat(cs@[i as int], marks);
        assert(closes((k - 0) as nat) == closes(marks.len()));
    }
    let rest = escape_from(cs, j);
    proof {
        lemma_marks_len_exact(s.skip(1), k);
        assert(s.skip(1) =~= cs@.skip(i + 1));
        assert(s.skip(1).take(k) =~= marks);
        assert(s.skip(1 + k) =~= cs@.skip(j as int));
        assert(s[0] == cs@[i as int]);
        // every character of the group is supported
        assert(forall|t: int| 0 <= t < 1 + k ==> is_supported_char(s[t]));
        lemma_scan_err_skip(s, 1 + k);
    }
    match rest {
        Ok(mut tail) => {
            proof {
                assert(escape_seq(s) == escape_group(s[0], s.skip(1).take(k)) + escape_seq(
                    s.skip(1 + k),
                ));
            }
            out.append(&mut tail);
            Ok(out)
        },
        Err(e) => Err(e),
    }
}

/// Escape an already-decomposed character sequence.
///
/// Returns the TeX form of `cs`, or the first error in stream order: an
/// unsupported character, or a combining mark at the very start.
pub fn escape_decomposed(cs: &Vec<char>) -> (r: Result<Vec<char>, EscapeError>)
    ensures
        match r {
            Ok(out) => scan_err(cs@, true) is None && out@ == escape_seq(cs@),
            Err(e) => scan_err(cs@, true) == Some(e),
        },
{
    if cs.len() == 0 {
        return Ok(Vec::new());
    }
    let c0 = cs[0];
    if !char_is_supported(c0) {
        return Err(EscapeError::UnsupportedCharacter(c0));
    }
    if char_is_combining(c0) {
        return Err(EscapeError::MalformedCombiningSequence);
    }
    let r = escape_from(cs, 0);
    proof {
        assert(cs@.skip(0) =~= cs@);
    }
    r
}

/// The NFKD decomposition of a character sequence, as the
/// `unicode-normalization` crate computes it.  The result is a function of
/// the input characters alone.
pub uninterp spec fn nfkd_of(s: Seq<char>) -> Seq<char>;

/// Relies on `unicode_normalization::UnicodeNormalization::nfkd`, which
/// yields the characters of the input in Unicode Normalization Form KD
/// (Unicode Standard Annex 15).  UAX 15 guarantees that text containing only
/// ASCII characters (below U+0080) is unaffected by every normalization
/// form, which gives the second clause.
#[verifier::external_body]
fn nfkd_chars(s: &str) -> (r: Vec<char>)
    ensures
        r@ == nfkd_of(s@),
        (forall|i: int| 0 <= i < s@.len() ==> (s@[i] as u32) < 128) ==> r@ == s@,
{
    s.chars().nfkd().collect()
}

/// Does the whole of `s` escape cleanly after decomposition?
pub open spec fn escaped_ok(s: Seq<char>) -> bool {
    scan_err(nfkd_of(s), true) is None
}

/// The TeX form of `s`: its NFKD decomposition rendered group by group.
pub open spec fn escaped_text(s: Seq<char>) -> Seq<char> {
    escape_seq(nfkd_of(s))
}

/// The first reason `s` cannot be escaped, if any.
pub open spec fn escape_failure(s: Seq<char>) -> Option<EscapeError> {
    scan_err(nfkd_of(s), true)
}

/// A string paired with its TeX-escaped rendering, produced on demand by
/// [`Utf8ToTex::to_string`].
pub struct Utf8ToTex<'a> {
    original: &'a str,
}

impl<'a> Utf8ToTex<'a> {
    /// The string this escapes.
    pub closed spec fn spec_original(self) -> Seq<char> {
        self.original@
    }

    /// The TeX-escaped form of the wrapped string, or the first escaping
    /// error.  On input whose characters are all TeX-safe ASCII the result
    /// is the input itself.
    pub fn to_string(&self) -> (r: Result<String, EscapeError>)
        ensures
            match r {
                Ok(out) => escaped_ok(self.spec_original()) && out@ == escaped_text(
                    self.spec_original(),
                ),
                Err(e) => escape_failure(self.spec_original()) == Some(e),
            },
            (forall|i: int|
                0 <= i < self.spec_original().len() ==> is_verbatim_char(self.spec_original()[i]))
                ==> (r matches Ok(out) && out@ == self.spec_original()),
    {
        let decomposed = nfkd_chars(self.original);
        proof {
            if forall|i: int|
                0 <= i < self.spec_original().len() ==> is_verbatim_char(
                    self.spec_original()[i],
                ) {
                assert(forall|i: int|
                    0 <= i < self.original@.len() ==> (self.original@[i] as u32) < 128);
                assert(nfkd_of(self.original@) == self.original@);
                lemma_verbatim_passthrough(self.original@);
            }
        }
        match escape_decomposed(&decomposed) {
            Ok(out) => Ok(chars_to_string(&out)),
            Err(e) => Err(e),
        }
    }
}

/// Substitute non-ASCII characters and escape TeX control characters.
pub fn utf8_to_tex<'a>(s: &'a str) -> (t: Utf8ToTex<'a>)
    ensures
        t.spec_original() == s@,
{
    Utf8ToTex { original: s }
}

/// Escape a string in one call: the TeX form of `s`, or the first error.
/// Like [`Utf8ToTex::to_string`], TeX-safe ASCII passes through unchanged.
pub fn escape_str(s: &str) -> (r: Result<Vec<char>, EscapeError>)
    ensures
        match r {
            Ok(out) => escaped_ok(s@) && out@ == escaped_text(s@),
            Err(e) => escape_failure(s@) == Some(e),
        },
        (forall|i: int| 0 <= i < s@.len() ==> is_verbatim_char(s@[i])) ==> (r matches Ok(out)
            && out@ == s@),
{
    let decomposed = nfkd_chars(s);
    proof {
        if forall|i: int| 0 <= i < s@.len() ==> is_verbatim_char(s@[i]) {
            assert(forall|i: int| 0 <= i < s@.len() ==> (s@[i] as u32) < 128);
            assert(nfkd_of(s@) == s@);
            lemma_verbatim_passthrough(s@);
        }
    }
    escape_decomposed(&decomposed)
}

/// A sequence of TeX-safe characters escapes to itself: no character needs a
/// macro, so every glyph group is a single verbatim character.
///
/// Since ASCII text is unaffected by NFKD decomposition, this is the
/// passthrough law for [`Utf8ToTex::to_string`] on plain ASCII input, stated
/// there as a postcondition.
pub proof fn lemma_verbatim_passthrough(s: Seq<char>)
    requires
        forall|i: int| 0 <= i < s.len() ==> is_verbatim_char(s[i]),
    ensures
        scan_err(s, true) is None,
        scan_err(s, false) is None,
        escape_seq(s) == s,
    decreases s.len(),
{
    if s.len() > 0 {
        assert(is_verbatim_char(s[0]));
        assert(!is_combining_mark(s[0]));
        assert(marks_len(s.skip(1)) == 0) by {
            if s.len() > 1 {
                assert(is_verbatim_char(s[1]));
            }
        }
        lemma_verbatim_passthrough(s.skip(1));
        assert(s.skip(1).take(0) =~= Seq::<char>::empty());
        assert(escape_seq(s) =~= s);
    }
}

} // verus!
