//! A plain-value model of JSON documents, holding exactly what the record
//! converter reads: nulls, booleans, numbers (as their optional signed and
//! unsigned integer readings), strings, arrays and objects.
//!
//! Objects keep their fields in order; a lookup takes the first binding of a
//! key.  The embedding that fills this model from a concrete JSON parser
//! lives outside the verified library.

use vstd::prelude::*;

use crate::text::str_of;

verus! {

/// A JSON number, reduced to the integer readings the converter uses: its
/// value as a signed 64-bit integer and as an unsigned one, where those
/// exist.  A non-integral number has neither.
#[derive(Debug, Clone, Copy, PartialEq, Eq, Structural)]
pub struct JsonNum {
    pub as_int: Option<i64>,
    pub as_uint: Option<u64>,
}

/// A JSON value.
#[derive(Debug)]
pub enum Json {
    Null,
    Bool(bool),
    Num(JsonNum),
    Str(String),
    Arr(Vec<Json>),
    Obj(Vec<(String, Json)>),
}

/// The first value bound to `key`, if any.
pub open spec fn lookup(fields: Seq<(String, Json)>, key: Seq<char>) -> Option<Json>
    decreases fields.len(),
{
    if fields.len() == 0 {
        None
    } else if fields[0].0@ == key {
        Some(fields[0].1)
    } else {
        lookup(fields.skip(1), key)
    }
}

/// Look a key up in a field list.
pub fn lookup_field<'a>(fields: &'a Vec<(String, Json)>, key: &str) -> (r: Option<&'a Json>)
    ensures
        match r {
            Some(j) => lookup(fields@, key@) == Some(*j),
            None => lookup(fields@, key@) is None,
        },
{
    assert(fields@.skip(0) =~= fields@);
    let mut i: usize = 0;
    while i < fields.len()
        invariant
            i <= fields@.len(),
            lookup(fields@, key@) == lookup(fields@.skip(i as int), key@),
        decreases fields@.len() - i,
    {
        if crate::text::str_eq(str_of(&fields[i].0), key) {
            assert(fields@.skip(i as int)[0] == fields@[i as int]);
            return Some(&fields[i].1);
        }
        proof {
            assert(fields@.skip(i as int)[0] == fields@[i as int]);
            assert(fields@.skip(i as int).skip(1) =~= fields@.skip(i + 1));
        }
        i = i + 1;
    }
    proof {
        assert(fields@.skip(i as int) =~= Seq::<(String, Json)>::empty());
    }
    None
}

/// Decimal digits.
pub open spec fn is_digit(c: char) -> bool {
    let u = c as u32;
    48 <= u && u <= 57
}

/// The numeric value of one decimal digit character.
pub open spec fn digit_val(c: char) -> nat {
    ((c as u32) - 48) as nat
}

/// Does `s` consist of decimal digits only?
pub open spec fn all_digits(s: Seq<char>) -> bool {
    forall|i: int| 0 <= i < s.len() ==> is_digit(s[i])
}

/// The numeric value of a digit string, most significant digit first.
pub open spec fn digits_val(s: Seq<char>) -> nat
    decreases s.len(),
{
    if s.len() == 0 {
        0
    } else {
        digits_val(s.drop_last()) * 10 + digit_val(s.last())
    }
}

/// A digit string is worth at least any of its prefixes.
pub proof fn lemma_digits_val_prefix_le(s: Seq<char>, i: int)
    requires
        0 <= i <= s.len(),
    ensures
        digits_val(s.take(i)) <= digits_val(s),
    decreases s.len() - i,
{
    if i < s.len() {
        lemma_digits_val_prefix_le(s, i + 1);
        assert(s.take(i + 1).drop_last() =~= s.take(i));
        assert(digits_val(s.take(i + 1)) == digits_val(s.take(i)) * 10 + digit_val(
            s.take(i + 1).last(),
        ));
        assert(digits_val(s.take(i)) <= digits_val(s.take(i)) * 10);
    } else {
        assert(s.take(i) =~= s);
    }
}

/// Is `cs[lo..hi]` all digits?  Decided by scanning.
pub fn check_digits_range(cs: &Vec<char>, lo: usize, hi: usize) -> (r: bool)
    requires
        lo <= hi <= cs@.len(),
    ensures
        r == all_digits(cs@.subrange(lo as int, hi as int)),
{
    let ghost s = cs@.subrange(lo as int, hi as int);
    let mut i = lo;
    while i < hi
        invariant
            lo <= i <= hi <= cs@.len(),
            s == cs@.subrange(lo as int, hi as int),
            forall|t: int| 0 <= t < i - lo ==> is_digit(s[t]),
        decreases hi - i,
    {
        let c = cs[i];
        assert(s[i - lo] == cs@[i as int]);
        let u = c as u32;
        if !(48 <= u && u <= 57) {
            assert(!is_digit(s[i - lo]));
            return false;
        }
        i = i + 1;
    }
    true
}

/// The Unicode characters with the `White_Space` property, which the
/// converter strips from the ends of genre labels.
pub open spec fn is_unicode_ws(c: char) -> bool {
    let u = c as u32;
    (9 <= u && u <= 13) || u == 32 || u == 0x85 || u == 0xA0 || u == 0x1680 || (0x2000 <= u && u
        <= 0x200A) || u == 0x2028 || u == 0x2029 || u == 0x202F || u == 0x205F || u == 0x3000
}

/// `s` with leading whitespace removed.
pub open spec fn trim_start(s: Seq<char>) -> Seq<char>
    decreases s.len(),
{
    if s.len() > 0 && is_unicode_ws(s[0]) {
        trim_start(s.skip(1))
    } else {
        s
    }
}

/// `s` with trailing whitespace removed.
pub open spec fn trim_end(s: Seq<char>) -> Seq<char>
    decreases s.len(),
{
    if s.len() > 0 && is_unicode_ws(s.last()) {
        trim_end(s.drop_last())
    } else {
        s
    }
}

/// `s` with whitespace removed from both ends.
pub open spec fn trimmed(s: Seq<char>) -> Seq<char> {
    trim_end(trim_start(s))
}

/// The lower-case form of an ASCII letter; every other character is kept.
pub open spec fn ascii_lower_char(c: char) -> char {
    if c == 'A' {
        'a'
    } else if c == 'B' {
        'b'
    } else if c == 'C' {
        'c'
    } else if c == 'D' {
        'd'
    } else if c == 'E' {
        'e'
    } else if c == 'F' {
        'f'
    } else if c == 'G' {
        'g'
    } else if c == 'H' {
        'h'
    } else if c == 'I' {
        'i'
    } else if c == 'J' {
        'j'
    } else if c == 'K' {
        'k'
    } else if c == 'L' {
        'l'
    } else if c == 'M' {
        'm'
    } else if c == 'N' {
        'n'
    } else if c == 'O' {
        'o'
    } else if c == 'P' {
        'p'
    } else if c == 'Q' {
        'q'
    } else if c == 'R' {
        'r'
    } else if c == 'S' {
        's'
    } else if c == 'T' {
        't'
    } else if c == 'U' {
        'u'
    } else if c == 'V' {
        'v'
    } else if c == 'W' {
        'w'
    } else if c == 'X' {
        'x'
    } else if c == 'Y' {
        'y'
    } else if c == 'Z' {
        'z'
    } else {
        c
    }
}

/// A string mapped to ASCII lower case.
pub open spec fn ascii_lower(s: Seq<char>) -> Seq<char> {
    s.map_values(|c: char| ascii_lower_char(c))
}

fn ascii_lower_char_of(c: char) -> (r: char)
    ensures
        r == ascii_lower_char(c),
{
    let u = c as u32;
    if 65 <= u && u <= 90 {
        if c == 'A' {
            'a'
        } else if c == 'B' {
            'b'
        } else if c == 'C' {
            'c'
        } else if c == 'D' {
            'd'
        } else if c == 'E' {
            'e'
        } else if c == 'F' {
            'f'
        } else if c == 'G' {
            'g'
        } else if c == 'H' {
            'h'
        } else if c == 'I' {
            'i'
        } else if c == 'J' {
            'j'
        } else if c == 'K' {
            'k'
        } else if c == 'L' {
            'l'
        } else if c == 'M' {
            'm'
        } else if c == 'N' {
            'n'
        } else if c == 'O' {
            'o'
        } else if c == 'P' {
            'p'
        } else if c == 'Q' {
            'q'
        } else if c == 'R' {
            'r'
        } else if c == 'S' {
            's'
        } else if c == 'T' {
            't'
        } else if c == 'U' {
            'u'
        } else if c == 'V' {
            'v'
        } else if c == 'W' {
            'w'
        } else if c == 'X' {
            'x'
        } else if c == 'Y' {
            'y'
        } else {
            'z'
        }
    } else {
        c
    }
}

/// Lower-case (ASCII) and trim a character sequence, as the converter
/// normalizes genre labels.
pub fn lower_trim(cs: &Vec<char>) -> (r: Vec<char>)
    ensures
        r@ == trimmed(ascii_lower(cs@)),
{
    let mut low: Vec<char> = Vec::new();
    let mut i: usize = 0;
    while i < cs.len()
        invariant
            i <= cs@.len(),
            low@ == ascii_lower(cs@).take(i as int),
        decreases cs@.len() - i,
    {
        let c = ascii_lower_char_of(cs[i]);
        low.push(c);
        proof {
            assert(ascii_lower(cs@).take(i + 1) =~= ascii_lower(cs@).take(i as int).push(
                ascii_lower(cs@)[i as int],
            ));
        }
        i = i + 1;
    }
    proof {
        assert(ascii_lower(cs@).take(cs@.len() as int) =~= ascii_lower(cs@));
    }
    let ghost full = ascii_lower(cs@);
    let mut lo: usize = 0;
    while lo < low.len() && is_ws_char(low[lo])
        invariant
            lo <= low@.len(),
            low@ == full,
            trim_start(full) == trim_start(full.skip(lo as int)),
        decreases low@.len() - lo,
    {
        proof {
            assert(full.skip(lo as int)[0] == full[lo as int]);
            assert(full.skip(lo as int).skip(1) =~= full.skip(lo + 1));
        }
        lo = lo + 1;
    }
    proof {
        if lo < low@.len() {
            assert(full.skip(lo as int)[0] == full[lo as int]);
        }
        assert(trim_start(full) == full.skip(lo as int));
    }
    let ghost started = full.skip(lo as int);
    let mut hi: usize = low.len();
    while hi > lo && is_ws_char(low[hi - 1])
        invariant
            lo <= hi <= low@.len(),
            low@ == full,
            started == full.skip(lo as int),
            trim_end(started) == trim_end(full.subrange(lo as int, hi as int)),
        decreases hi,
    {
        proof {
            let cur = full.subrange(lo as int, hi as int);
            assert(cur.last() == full[hi - 1]);
            assert(cur.drop_last() =~= full.subrange(lo as int, hi - 1));
        }
        hi = hi - 1;
    }
    proof {
        let cur = full.subrange(lo as int, hi as int);
        if hi > lo {
            assert(cur.last() == full[hi - 1]);
        }
        assert(trim_end(started) == cur);
    }
    let mut out: Vec<char> = Vec::new();
    let mut j = lo;
    while j < hi
        invariant
            lo <= j <= hi <= low@.len(),
            low@ == full,
            out@ == full.subrange(lo as int, j as int),
        decreases hi - j,
    {
        out.push(low[j]);
        proof {
            assert(full.subrange(lo as int, j + 1) =~= full.subrange(lo as int, j as int).push(
                full[j as int],
            ));
        }
        j = j + 1;
    }
    proof {
        assert(trimmed(ascii_lower(cs@)) == full.subrange(lo as int, hi as int));
    }
    out
}

/// Is `c` a whitespace character the trimmer strips?
fn is_ws_char(c: char) -> (r: bool)
    ensures
        r == is_unicode_ws(c),
{
    let u = c as u32;
    (9 <= u && u <= 13) || u == 32 || u == 0x85 || u == 0xA0 || u == 0x1680 || (0x2000 <= u && u
        <= 0x200A) || u == 0x2028 || u == 0x2029 || u == 0x202F || u == 0x205F || u == 0x3000
}

} // verus!
