//! The text of a document, cut down to what is sent to the model.

use vstd::prelude::*;
use crate::error::Failure;
use crate::text::chars_of;
use crate::text::is_space;
use crate::text::is_space_char;
use crate::text::string_of;

verus! {

/// The most bytes of a document's text that are sent to the model.
pub const EXCERPT_BYTES: usize = 3000;

/// The number of bytes that a character takes in UTF-8.
pub open spec fn utf8_width(c: char) -> nat {
    if (c as u32) < 0x80 {
        1
    } else if (c as u32) < 0x800 {
        2
    } else if (c as u32) < 0x10000 {
        3
    } else {
        4
    }
}

/// The number of bytes that a text takes in UTF-8.
pub open spec fn byte_length(s: Seq<char>) -> nat
    decreases s.len(),
{
    if s.len() == 0 {
        0
    } else {
        byte_length(s.drop_last()) + utf8_width(s.last())
    }
}

/// A text is blank when it holds nothing but whitespace.
pub open spec fn is_blank(s: Seq<char>) -> bool {
    forall|i: int| 0 <= i < s.len() ==> is_space_char(#[trigger] s[i])
}

/// `e` is the excerpt of `s`: the longest run of whole characters from the
/// start of `s` that fits into the limit of bytes.
pub open spec fn is_excerpt_of(e: Seq<char>, s: Seq<char>) -> bool {
    &&& e.is_prefix_of(s)
    &&& byte_length(e) <= EXCERPT_BYTES
    &&& e.len() < s.len() ==> byte_length(e) + utf8_width(s[e.len() as int]) > EXCERPT_BYTES
}

/// The number of bytes that a character takes in UTF-8.
pub fn width_of(c: char) -> (w: usize)
    ensures
        w == utf8_width(c),
        1 <= w <= 4,
{
    let code = c as u32;
    if code < 0x80 {
        1
    } else if code < 0x800 {
        2
    } else if code < 0x10000 {
        3
    } else {
        4
    }
}

/// Whether the text holds nothing but whitespace.
pub fn blank(chars: &Vec<char>) -> (r: bool)
    ensures
        r == is_blank(chars@),
{
    let mut i: usize = 0;
    while i < chars.len()
        invariant
            i <= chars.len(),
            forall|j: int| 0 <= j < i ==> is_space_char(#[trigger] chars@[j]),
        decreases chars.len() - i,
    {
        if !is_space(chars[i]) {
            return false;
        }
        i += 1;
    }
    true
}

/// The excerpt of a document's text that is sent to the model: the text
/// itself if it fits into the limit of bytes, else its longest start that
/// does, cut between two characters. A blank text fails with `EmptyText`.
pub fn excerpt(text: &str) -> (r: Result<String, Failure>)
    ensures
        is_blank(text@) ==> r == Err::<String, Failure>(Failure::EmptyText),
        !is_blank(text@) ==> (r matches Ok(e) && is_excerpt_of(e@, text@)),
{
    let chars = chars_of(text);
    if blank(&chars) {
        return Err(Failure::EmptyText);
    }
    let mut kept: Vec<char> = Vec::new();
    let mut used: usize = 0;
    let mut full = false;
    let mut i: usize = 0;
    while i < chars.len() && !full
        invariant
            i <= chars.len(),
            chars@ == text@,
            kept@ == chars@.take(i as int),
            used == byte_length(kept@),
            used <= EXCERPT_BYTES,
            full ==> i < chars.len() && used + utf8_width(chars@[i as int]) > EXCERPT_BYTES,
        decreases chars.len() - i + if full { 0int } else { 1int },
    {
        let c = chars[i];
        let w = width_of(c);
        if used + w > EXCERPT_BYTES {
            full = true;
        } else {
            proof {
                assert(chars@.take(i + 1) =~= chars@.take(i as int).push(c));
                assert(chars@.take(i + 1).drop_last() =~= chars@.take(i as int));
            }
            kept.push(c);
            used = used + w;
            i += 1;
        }
    }
    proof {
        assert(kept@ =~= text@.subrange(0, kept@.len() as int));
    }
    Ok(string_of(&kept))
}

/// The excerpt of what was read from a document, if anything was. A document
/// from which nothing could be read fails with `Unextractable`.
pub fn excerpt_of_extraction(extracted: Option<String>) -> (r: Result<String, Failure>)
    ensures
        extracted is None ==> r == Err::<String, Failure>(Failure::Unextractable),
        extracted matches Some(text) ==> (is_blank(text@) ==> r == Err::<String, Failure>(
            Failure::EmptyText,
        )),
        extracted matches Some(text) ==> (!is_blank(text@) ==> (r matches Ok(e) && is_excerpt_of(
            e@,
            text@,
        ))),
{
    match extracted {
        None => Err(Failure::Unextractable),
        Some(text) => excerpt(text.as_str()),
    }
}

/// A text has one excerpt only.
pub proof fn lemma_excerpt_is_unique(a: Seq<char>, b: Seq<char>, s: Seq<char>)
    requires
        is_excerpt_of(a, s),
        is_excerpt_of(b, s),
    ensures
        a == b,
{
    if a.len() < b.len() {
        lemma_byte_length_of_start(b, a.len() as int + 1);
        assert(b.take(a.len() as int + 1) =~= a.push(s[a.len() as int]));
        assert(a.push(s[a.len() as int]).drop_last() =~= a);
    } else if b.len() < a.len() {
        lemma_byte_length_of_start(a, b.len() as int + 1);
        assert(a.take(b.len() as int + 1) =~= b.push(s[b.len() as int]));
        assert(b.push(s[b.len() as int]).drop_last() =~= b);
    } else {
        assert(a =~= b);
    }
}

/// A start of a text takes no more bytes than the text.
pub proof fn lemma_byte_length_of_start(s: Seq<char>, n: int)
    requires
        0 <= n <= s.len(),
    ensures
        byte_length(s.take(n)) <= byte_length(s),
    decreases s.len(),
{
    if n < s.len() {
        lemma_byte_length_of_start(s.drop_last(), n);
        assert(s.drop_last().take(n) =~= s.take(n));
    } else {
        assert(s.take(n) =~= s);
    }
}

} // verus!
