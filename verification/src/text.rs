//! Characters and strings: the classes of characters that the naming rules
//! speak of, the lowercase form of a text, and conversions between strings and
//! vectors of characters.
//!
//! Within ASCII every rule is written out and proved. Beyond ASCII the
//! classes and the case mapping are those of the standard library's Unicode
//! tables, which stand here under names of their own.

use vstd::prelude::*;
use vstd::utf8::is_ascii_chars;

verus! {

/// Whether a character is alphabetic or numeric in the sense of Unicode.
pub uninterp spec fn is_alphanumeric(c: char) -> bool;

/// Whether a character has the Unicode property `White_Space`.
pub uninterp spec fn is_whitespace(c: char) -> bool;

/// The lowercase form of a text under the Unicode case mapping.
pub uninterp spec fn lowercase_of(s: Seq<char>) -> Seq<char>;

/// The characters of ASCII.
pub open spec fn is_ascii_char(c: char) -> bool {
    '\0' <= c && c <= '\u{7f}'
}

/// The capital letters of ASCII.
pub open spec fn is_ascii_capital(c: char) -> bool {
    'A' <= c && c <= 'Z'
}

/// The characters that count as letters and digits: within ASCII the letters
/// `a` to `z` and `A` to `Z` and the digits `0` to `9`, beyond ASCII the
/// characters that Unicode has as alphabetic or numeric.
pub open spec fn is_word_char(c: char) -> bool {
    if is_ascii_char(c) {
        ('a' <= c && c <= 'z') || ('A' <= c && c <= 'Z') || ('0' <= c && c <= '9')
    } else {
        is_alphanumeric(c)
    }
}

/// The characters that count as whitespace: within ASCII the space and the
/// characters from the tabulator to the carriage return, beyond ASCII the
/// characters that Unicode has as whitespace.
pub open spec fn is_space_char(c: char) -> bool {
    if is_ascii_char(c) {
        c == ' ' || ('\t' <= c && c <= '\r')
    } else {
        is_whitespace(c)
    }
}

/// The small letter for a capital letter of ASCII; any other character
/// itself.
pub open spec fn lower_ascii(c: char) -> char {
    if is_ascii_capital(c) {
        ((c as u8) + 32) as char
    } else {
        c
    }
}

/// The text with each capital letter of ASCII replaced by its small letter.
pub open spec fn lower_all(s: Seq<char>) -> Seq<char> {
    s.map_values(|c: char| lower_ascii(c))
}

/// The lowercase form of a text. A text of ASCII characters is lowered letter
/// by letter; any other text has the lowercase form that the Unicode case
/// mapping gives it.
pub open spec fn lowered(s: Seq<char>) -> Seq<char> {
    if is_ascii_chars(s) {
        lower_all(s)
    } else {
        lowercase_of(s)
    }
}

/// A text is in lowercase when it is its own lowercase form.
pub open spec fn is_lowercase(s: Seq<char>) -> bool {
    lowered(s) == s
}

/// `char::is_alphanumeric`: the answer is a function of the character alone,
/// named [`is_alphanumeric`]. Nothing else is claimed of it.
#[verifier::external_body]
fn char_is_alphanumeric(c: char) -> (b: bool)
    ensures
        b == is_alphanumeric(c),
{
    c.is_alphanumeric()
}

/// `char::is_whitespace`: the answer is a function of the character alone,
/// named [`is_whitespace`]. Nothing else is claimed of it.
#[verifier::external_body]
fn char_is_whitespace(c: char) -> (b: bool)
    ensures
        b == is_whitespace(c),
{
    c.is_whitespace()
}

/// `str::to_lowercase`: the result is a function of the text alone, named
/// [`lowercase_of`]. Nothing else is claimed of it.
#[verifier::external_body]
fn lowercase(s: &str) -> (r: String)
    ensures
        r@ == lowercase_of(s@),
{
    s.to_lowercase()
}

/// `String::push` appends one character to the text.
pub assume_specification[ String::push ](s: &mut String, c: char)
    ensures
        final(s)@ == old(s)@.push(c),
;

/// Whether a character counts as a letter or a digit.
pub fn is_word(c: char) -> (b: bool)
    ensures
        b == is_word_char(c),
{
    if c <= '\u{7f}' {
        (c >= 'a' && c <= 'z') || (c >= 'A' && c <= 'Z') || (c >= '0' && c <= '9')
    } else {
        char_is_alphanumeric(c)
    }
}

/// Whether a character counts as whitespace.
pub fn is_space(c: char) -> (b: bool)
    ensures
        b == is_space_char(c),
{
    if c <= '\u{7f}' {
        c == ' ' || (c >= '\t' && c <= '\r')
    } else {
        char_is_whitespace(c)
    }
}

/// The small letter for a capital letter of ASCII; any other character
/// itself.
pub fn lower_letter(c: char) -> (r: char)
    ensures
        r == lower_ascii(c),
{
    if c >= 'A' && c <= 'Z' {
        let code: u8 = c as u8;
        (code + 32) as char
    } else {
        c
    }
}

/// The lowercase form of a text.
pub fn to_lower(s: &str) -> (r: String)
    ensures
        r@ == lowered(s@),
{
    if s.is_ascii() {
        let mut out = String::new();
        for c in it: s.chars()
            invariant
                it.seq() == s@,
                out@ == lower_all(s@.take(it.index() as int)),
        {
            proof {
                let seen = s@.take(it.index() as int);
                assert(s@.take(it.index() + 1) =~= seen.push(c));
                assert(lower_all(seen.push(c)) =~= lower_all(seen).push(lower_ascii(c)));
            }
            out.push(lower_letter(c));
        }
        proof {
            assert(s@.take(s@.len() as int) =~= s@);
        }
        out
    } else {
        lowercase(s)
    }
}

/// The characters of a text, in order.
pub fn chars_of(s: &str) -> (v: Vec<char>)
    ensures
        v@ == s@,
{
    let mut v: Vec<char> = Vec::new();
    for c in it: s.chars()
        invariant
            it.seq() == s@,
            v@ == s@.take(it.index() as int),
    {
        assert(s@.take(it.index() + 1) =~= s@.take(it.index() as int).push(c));
        v.push(c);
    }
    assert(s@.take(s@.len() as int) =~= s@);
    v
}

/// The text made of the given characters, in order.
pub fn string_of(v: &Vec<char>) -> (s: String)
    ensures
        s@ == v@,
{
    let mut s = String::new();
    let mut i: usize = 0;
    while i < v.len()
        invariant
            i <= v.len(),
            s@ == v@.take(i as int),
        decreases v.len() - i,
    {
        s.push(v[i]);
        i += 1;
    }
    s
}

} // verus!
