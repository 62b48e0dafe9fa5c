//! The outer frame of a token: three segments of base64url characters,
//! parted by two dots, none empty and none of a length that base64 cannot
//! have. Whether the last character of a segment carries stray bits is left
//! to the decoder.
//!
//! A text of ASCII alone is read by its bytes, in one pass; any other text
//! is no token, and is read character by character only where a count is
//! asked of it.

use vstd::prelude::*;
use vstd::string::{is_ascii, is_ascii_spec_bytes, StrSliceExecFns};

verus! {

/// The number of dots in a text.
pub open spec fn dot_count(text: Seq<char>) -> nat
    decreases text.len(),
{
    if text.len() == 0 {
        0
    } else {
        dot_count(text.drop_last()) + if text.last() == '.' {
            1nat
        } else {
            0nat
        }
    }
}

/// A character of the URL-safe base64 alphabet.
pub open spec fn is_base64url_char(c: char) -> bool {
    ('A' <= c && c <= 'Z') || ('a' <= c && c <= 'z') || ('0' <= c && c <= '9') || c == '-' || c
        == '_'
}

/// Every character of the text is a dot or of the URL-safe base64 alphabet.
pub open spec fn has_token_chars(text: Seq<char>) -> bool {
    forall|i: int| 0 <= i < text.len() ==> text[i] == '.' || is_base64url_char(#[trigger] text[i])
}

/// The number of characters after the last dot of a text, or of the whole
/// text where it holds no dot.
pub open spec fn tail_len(text: Seq<char>) -> nat
    decreases text.len(),
{
    if text.len() == 0 || text.last() == '.' {
        0
    } else {
        tail_len(text.drop_last()) + 1
    }
}

/// A length that unpadded base64 can have: any but one more than a multiple
/// of four.
pub open spec fn is_base64_len(len: nat) -> bool {
    len % 4 != 1
}

/// A length that a segment of a token can have: above zero, and one that
/// base64 can have.
pub open spec fn is_segment_len(len: nat) -> bool {
    len > 0 && is_base64_len(len)
}

/// Every segment that a dot closes has a length that a segment can have.
pub open spec fn closed_segments_sized(text: Seq<char>) -> bool
    decreases text.len(),
{
    if text.len() == 0 {
        true
    } else if text.last() == '.' {
        is_segment_len(tail_len(text.drop_last())) && closed_segments_sized(text.drop_last())
    } else {
        closed_segments_sized(text.drop_last())
    }
}

/// Every segment of the text, the last one too, has a length that a segment
/// can have: none is empty.
pub open spec fn segments_sized(text: Seq<char>) -> bool {
    closed_segments_sized(text) && is_segment_len(tail_len(text))
}

/// A text has the frame of a token where it holds exactly two dots and
/// nothing else but base64url characters, and each of its three segments
/// is not empty and has a length that base64 can have.
pub open spec fn is_framed(text: Seq<char>) -> bool {
    dot_count(text) == 2 && has_token_chars(text) && segments_sized(text)
}

/// One more character closes the last segment where it is a dot, and
/// lengthens it where it is not.
pub proof fn lemma_segments_push(text: Seq<char>, c: char)
    ensures
        tail_len(text.push(c)) == if c == '.' {
            0nat
        } else {
            tail_len(text) + 1
        },
        closed_segments_sized(text.push(c)) == if c == '.' {
            is_segment_len(tail_len(text)) && closed_segments_sized(text)
        } else {
            closed_segments_sized(text)
        },
        tail_len(text.push(c)) <= text.len() + 1,
{
    assert(text.push(c).drop_last() =~= text);
    lemma_tail_len_bound(text);
}

/// The last segment is no longer than the text.
pub proof fn lemma_tail_len_bound(text: Seq<char>)
    ensures
        tail_len(text) <= text.len(),
    decreases text.len(),
{
    if text.len() > 0 && text.last() != '.' {
        lemma_tail_len_bound(text.drop_last());
    }
}

/// One more character adds one to the count where it is a dot, and nothing
/// where it is not.
pub proof fn lemma_dot_count_push(text: Seq<char>, c: char)
    ensures
        dot_count(text.push(c)) == dot_count(text) + if c == '.' {
            1nat
        } else {
            0nat
        },
{
    assert(text.push(c).drop_last() =~= text);
}

/// The number of characters of a text. For a text known to be ASCII it is
/// the number of its bytes.
fn char_count(text: &str, ascii: bool) -> (n: usize)
    requires
        ascii ==> is_ascii(text),
    ensures
        n == text@.len(),
{
    if ascii {
        broadcast use is_ascii_spec_bytes;

        text.as_bytes().len()
    } else {
        text.unicode_len()
    }
}

/// The character at a place of a text. For a text known to be ASCII it is
/// the byte at that place.
fn char_at(text: &str, i: usize, ascii: bool) -> (c: char)
    requires
        i < text@.len(),
        ascii ==> is_ascii(text),
    ensures
        c == text@[i as int],
{
    if ascii {
        let b: u8 = text.get_ascii(i);
        assert('\0' <= text@[i as int] <= '\u{7f}');
        b as char
    } else {
        text.get_char(i)
    }
}

/// A text that holds a character outside ASCII holds one that is neither a
/// dot nor of the base64url alphabet.
pub proof fn lemma_token_chars_are_ascii(text: &str)
    requires
        has_token_chars(text@),
    ensures
        is_ascii(text),
{
    assert forall|i: int| 0 <= i < text@.len() implies '\0' <= #[trigger] text@[i] <= '\u{7f}' by {
        assert(text@[i] == '.' || is_base64url_char(text@[i]));
    }
}

/// Counts the dots of a text.
pub fn count_dots(text: &str) -> (r: usize)
    ensures
        r == dot_count(text@),
{
    let ascii = text.is_ascii();
    let n: usize = char_count(text, ascii);
    let mut count: usize = 0;
    let mut i: usize = 0;
    while i < n
        invariant
            n == text@.len(),
            ascii ==> is_ascii(text),
            i <= n,
            count == dot_count(text@.take(i as int)),
            count <= i,
        decreases n - i,
    {
        let c = char_at(text, i, ascii);
        proof {
            lemma_dot_count_push(text@.take(i as int), c);
            assert(text@.take(i as int).push(c) =~= text@.take(i + 1));
        }
        if c == '.' {
            count = count + 1;
        }
        i = i + 1;
    }
    proof {
        assert(text@.take(n as int) =~= text@);
    }
    count
}

/// Whether a text has three segments.
pub fn has_three_segments(text: &str) -> (r: bool)
    ensures
        r == (dot_count(text@) == 2),
{
    count_dots(text) == 2
}

/// Whether a character is of the URL-safe base64 alphabet.
pub fn base64url_char(c: char) -> (r: bool)
    ensures
        r == is_base64url_char(c),
{
    ('A' <= c && c <= 'Z') || ('a' <= c && c <= 'z') || ('0' <= c && c <= '9') || c == '-' || c
        == '_'
}

/// Whether every character of a text is a dot or of the URL-safe base64
/// alphabet.
pub fn only_token_chars(text: &str) -> (r: bool)
    ensures
        r == has_token_chars(text@),
{
    let ascii = text.is_ascii();
    if !ascii {
        proof {
            if has_token_chars(text@) {
                lemma_token_chars_are_ascii(text);
            }
        }
        return false;
    }
    let n: usize = char_count(text, ascii);
    let mut i: usize = 0;
    while i < n
        invariant
            n == text@.len(),
            ascii ==> is_ascii(text),
            i <= n,
            forall|k: int| 0 <= k < i ==> text@[k] == '.' || is_base64url_char(#[trigger] text@[k]),
        decreases n - i,
    {
        let c = char_at(text, i, ascii);
        if c != '.' && !base64url_char(c) {
            return false;
        }
        i = i + 1;
    }
    true
}

/// Whether a length is one that a segment of a token can have.
pub fn segment_len(len: usize) -> (r: bool)
    ensures
        r == is_segment_len(len as nat),
{
    len > 0 && len % 4 != 1
}

/// Whether every segment of a text is not empty and has a length that base64
/// can have.
pub fn sized_segments(text: &str) -> (r: bool)
    ensures
        r == segments_sized(text@),
{
    let ascii = text.is_ascii();
    let n: usize = char_count(text, ascii);
    let mut run: usize = 0;
    let mut sized: bool = true;
    let mut i: usize = 0;
    while i < n
        invariant
            n == text@.len(),
            ascii ==> is_ascii(text),
            i <= n,
            run == tail_len(text@.take(i as int)),
            run <= i,
            sized == closed_segments_sized(text@.take(i as int)),
        decreases n - i,
    {
        let c = char_at(text, i, ascii);
        proof {
            lemma_segments_push(text@.take(i as int), c);
            assert(text@.take(i as int).push(c) =~= text@.take(i + 1));
        }
        if c == '.' {
            sized = segment_len(run) && sized;
            run = 0;
        } else {
            run = run + 1;
        }
        i = i + 1;
    }
    proof {
        assert(text@.take(n as int) =~= text@);
    }
    sized && segment_len(run)
}

/// Whether a text has the frame of a token.
pub fn well_framed(text: &str) -> (r: bool)
    ensures
        r == is_framed(text@),
{
    only_token_chars(text) && has_three_segments(text) && sized_segments(text)
}

} // verus!
