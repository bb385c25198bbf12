//! Strings as byte sequences: equality, search for an ASCII byte, and
//! substrings addressed by byte offsets.

use vstd::prelude::*;
use vstd::string::*;
use vstd::utf8::*;

verus! {

/// True when `c` is encoded in UTF-8 as the single byte of the same value.
pub open spec fn is_ascii_char(c: char) -> bool {
    (c as u32) < 0x80
}

/// A valid, non-empty encoding starts with the byte of an ASCII character
/// exactly when that character comes first in the decoded text.
pub proof fn lemma_first_char(bytes: Seq<u8>, c: char)
    requires
        valid_utf8(bytes),
        bytes.len() > 0,
        is_ascii_char(c),
    ensures
        decode_utf8(bytes).len() > 0,
        decode_utf8(bytes)[0] == c <==> bytes[0] == c as u8,
{
    let b0 = bytes[0];
    let v = decode_first_scalar(bytes);
    let first = v as char;
    assert(decode_utf8(bytes) == seq![first] + decode_utf8(pop_first_scalar(bytes)));
    assert(decode_utf8(bytes)[0] == first);
    decode_utf8_first_scalar(bytes);
    assert(encode_scalar(first as u32)[0] == b0);
    let w = c as u32;
    assert((w & 0x7f) as u8 == w as u8) by (bit_vector)
        requires
            w < 0x80,
    ;
    let u = first as u32;
    assert(u <= 0x7f ==> (u & 0x7f) as u8 == u as u8) by (bit_vector);
    assert(0xc0u8 | ((u >> 6) & 0x1f) as u8 >= 0xc0) by (bit_vector);
    assert(0xe0u8 | ((u >> 12) & 0x0f) as u8 >= 0xc0) by (bit_vector);
    assert(0xf0u8 | ((u >> 18) & 0x7) as u8 >= 0xc0) by (bit_vector);
}

/// After an ASCII byte at the start of a valid encoding a character ends.
pub proof fn lemma_boundary_after_ascii(bytes: Seq<u8>)
    requires
        valid_utf8(bytes),
        bytes.len() > 0,
        bytes[0] < 0x80,
    ensures
        is_char_boundary(bytes, 1),
        valid_utf8(pop_first_scalar(bytes)),
        pop_first_scalar(bytes) == bytes.subrange(1, bytes.len() as int),
{
    reveal_with_fuel(is_char_boundary, 2);
}

/// A valid encoding that holds no byte of an ASCII character decodes to a
/// text without that character.
pub proof fn lemma_decode_without(bytes: Seq<u8>, c: char)
    requires
        valid_utf8(bytes),
        is_ascii_char(c),
        forall|i: int| 0 <= i < bytes.len() ==> bytes[i] != c as u8,
    ensures
        forall|j: int| 0 <= j < decode_utf8(bytes).len() ==> decode_utf8(bytes)[j] != c,
    decreases bytes.len(),
{
    if bytes.len() > 0 {
        lemma_first_char(bytes, c);
        let rest = pop_first_scalar(bytes);
        let k = length_of_first_scalar(bytes);
        assert(1 <= k <= bytes.len());
        assert forall|i: int| 0 <= i < rest.len() implies rest[i] != c as u8 by {
            assert(rest[i] == bytes[i + k]);
        }
        lemma_decode_without(rest, c);
        let first = decode_first_scalar(bytes) as char;
        assert(decode_utf8(bytes) == seq![first] + decode_utf8(rest));
        assert forall|j: int| 0 <= j < decode_utf8(bytes).len() implies decode_utf8(bytes)[j]
            != c by {
            if j > 0 {
                assert(decode_utf8(bytes)[j] == decode_utf8(rest)[j - 1]);
            }
        }
    }
}

/// What a string slice holds is the decoding of its bytes.
pub proof fn lemma_str_view(s: &str)
    ensures
        valid_utf8(s.spec_bytes()),
        s@ == decode_utf8(s.spec_bytes()),
{
    encode_utf8_valid_utf8(s@);
    encode_utf8_decode_utf8(s@);
}

/// The part of `text` whose encoding lies at the bytes `start..end`, where
/// both offsets fall between two characters.
pub open spec fn byte_range(text: Seq<char>, start: int, end: int) -> Option<Seq<char>> {
    let bytes = encode_utf8(text);
    if start <= end && is_char_boundary(bytes, start) && is_char_boundary(bytes, end) {
        Some(decode_utf8(bytes.subrange(start, end)))
    } else {
        None
    }
}

/// An offset between two characters lies within the encoding.
pub proof fn lemma_boundary_in_range(bytes: Seq<u8>, index: int)
    requires
        valid_utf8(bytes),
        is_char_boundary(bytes, index),
    ensures
        0 <= index <= bytes.len(),
{
}

/// An offset between two characters of a text is also one of each prefix
/// that reaches as far.
pub proof fn lemma_boundary_in_prefix(bytes: Seq<u8>, start: int, end: int)
    requires
        valid_utf8(bytes),
        start <= end,
        is_char_boundary(bytes, start),
        is_char_boundary(bytes, end),
    ensures
        valid_utf8(bytes.subrange(0, end)),
        is_char_boundary(bytes.subrange(0, end), start),
{
    lemma_boundary_in_range(bytes, start);
    lemma_boundary_in_range(bytes, end);
    let head = bytes.subrange(0, end);
    valid_utf8_split(bytes, end);
    if start == end {
        is_char_boundary_start_end_of_seq(head);
    } else {
        is_char_boundary_iff_not_is_continuation_byte(bytes, start);
        is_char_boundary_iff_not_is_continuation_byte(head, start);
    }
}

/// Compares two byte slices.
pub fn bytes_eq(a: &[u8], b: &[u8]) -> (same: bool)
    ensures
        same == (a@ == b@),
{
    if a.len() != b.len() {
        return false;
    }
    let mut i: usize = 0;
    while i < a.len()
        invariant
            a.len() == b.len(),
            i <= a.len(),
            forall|j: int| 0 <= j < i ==> a@[j] == b@[j],
        decreases a.len() - i,
    {
        if a[i] != b[i] {
            return false;
        }
        i += 1;
    }
    assert(a@ =~= b@);
    true
}

/// Compares two strings by what they hold.
pub fn str_eq(a: &str, b: &str) -> (same: bool)
    ensures
        same == (a@ == b@),
{
    proof {
        lemma_str_view(a);
        lemma_str_view(b);
    }
    bytes_eq(a.as_bytes(), b.as_bytes())
}

/// The index of the first byte equal to `needle`, or the length of `bytes`
/// where there is none.
pub fn find_byte(bytes: &[u8], needle: u8) -> (at: usize)
    ensures
        at <= bytes@.len(),
        forall|j: int| 0 <= j < at ==> bytes@[j] != needle,
        at < bytes@.len() ==> bytes@[at as int] == needle,
{
    let mut i: usize = 0;
    while i < bytes.len()
        invariant
            i <= bytes.len(),
            forall|j: int| 0 <= j < i ==> bytes@[j] != needle,
        decreases bytes.len() - i,
    {
        if bytes[i] == needle {
            return i;
        }
        i += 1;
    }
    i
}

/// The substring of `text` at the bytes `start..end`.  There is none where
/// the range does not lie within the text or cuts through a character.
pub fn substring<'a>(text: &'a str, start: usize, end: usize) -> (part: Option<&'a str>)
    ensures
        match part {
            Some(p) => byte_range(text@, start as int, end as int) == Some(p@),
            None => byte_range(text@, start as int, end as int) is None,
        },
{
    if start <= end && text.is_char_boundary(start) && text.is_char_boundary(end) {
        proof {
            lemma_str_view(text);
            lemma_boundary_in_prefix(text.spec_bytes(), start as int, end as int);
        }
        let (head, _) = text.split_at(end);
        let (_, part) = head.split_at(start);
        proof {
            lemma_str_view(part);
            assert(part.spec_bytes() =~= text.spec_bytes().subrange(start as int, end as int));
        }
        Some(part)
    } else {
        None
    }
}

} // verus!
