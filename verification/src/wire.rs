//! One string on the wire: a four-byte little-endian length, then that many
//! bytes of UTF-8.

use vstd::prelude::*;
use vstd::utf8::{decode_utf8, encode_utf8, valid_utf8};

verus! {

/// The largest byte length that a length prefix can announce.
pub const MAX_FIELD_BYTES: usize = 0xffff_ffff;

/// The four bytes of a length prefix read as a little-endian number.
pub open spec fn le_u32(b: Seq<u8>) -> int
    recommends
        b.len() == 4,
{
    b[0] as int + 256 * (b[1] as int) + 65536 * (b[2] as int) + 16777216 * (b[3] as int)
}

/// The little-endian length prefix that announces `n` bytes.
pub open spec fn u32_le(n: int) -> Seq<u8>
    recommends
        0 <= n <= MAX_FIELD_BYTES,
{
    seq![
        (n % 256) as u8,
        ((n / 256) % 256) as u8,
        ((n / 65536) % 256) as u8,
        ((n / 16777216) % 256) as u8,
    ]
}

/// Whether a string is short enough for its length to fit the prefix.
pub open spec fn fits_prefix(s: Seq<char>) -> bool {
    encode_utf8(s).len() <= MAX_FIELD_BYTES
}

/// The bytes of one string on the wire: its length prefix, then its UTF-8
/// bytes.
pub open spec fn string_frame(s: Seq<char>) -> Seq<u8> {
    u32_le(encode_utf8(s).len() as int) + encode_utf8(s)
}

/// The number of bytes that the length prefix at the front of `b` announces.
pub open spec fn announced(b: Seq<u8>) -> int
    recommends
        b.len() >= 4,
{
    le_u32(b.take(4))
}

/// Reads one string off the front of `b`: the string and the bytes that follow
/// it, or `None` where the prefix is cut short, announces more bytes than
/// remain, or the announced bytes are not UTF-8.
pub open spec fn parse_string(b: Seq<u8>) -> Option<(Seq<char>, Seq<u8>)> {
    if b.len() >= 4 && b.len() >= 4 + announced(b) && valid_utf8(b.subrange(4, 4 + announced(b))) {
        Some((decode_utf8(b.subrange(4, 4 + announced(b))), b.skip(4 + announced(b))))
    } else {
        None
    }
}

/// A length prefix never announces more than `MAX_FIELD_BYTES`.
pub proof fn lemma_le_u32_range(b: Seq<u8>)
    ensures
        0 <= le_u32(b) <= MAX_FIELD_BYTES,
{
}

/// Reading the prefix that announces `n` gives `n` back.
pub proof fn lemma_le_u32_of_prefix(n: int)
    requires
        0 <= n <= MAX_FIELD_BYTES,
    ensures
        u32_le(n).len() == 4,
        le_u32(u32_le(n)) == n,
{
    let (q1, q2, q3) = (n / 256, n / 65536, n / 16777216);
    assert(n == 256 * q1 + n % 256);
    assert(q2 == q1 / 256 && q1 == 256 * q2 + q1 % 256);
    assert(q3 == q2 / 256 && q2 == 256 * q3 + q2 % 256);
    assert(0 <= q3 < 256);
}

/// Writing the number that four bytes spell gives the four bytes back.
pub proof fn lemma_prefix_of_le_u32(b: Seq<u8>)
    requires
        b.len() == 4,
    ensures
        u32_le(le_u32(b)) == b,
{
    let (b0, b1, b2, b3) = (b[0] as int, b[1] as int, b[2] as int, b[3] as int);
    let n = le_u32(b);
    assert(n == b0 + 256 * (b1 + 256 * (b2 + 256 * b3)));
    assert(n % 256 == b0 && n / 256 == b1 + 256 * (b2 + 256 * b3));
    assert((n / 256) % 256 == b1 && n / 65536 == b2 + 256 * b3);
    assert((n / 65536) % 256 == b2 && n / 16777216 == b3);
    assert(u32_le(n) =~= b);
}

/// A written string, whatever follows it, is read back as it was, and the
/// reading stops where what follows begins.
pub proof fn lemma_parse_frame(s: Seq<char>, tail: Seq<u8>)
    requires
        fits_prefix(s),
    ensures
        parse_string(string_frame(s) + tail) == Some((s, tail)),
{
    let body = encode_utf8(s);
    let n = body.len() as int;
    let b = string_frame(s) + tail;
    lemma_le_u32_of_prefix(n);
    assert(b.subrange(4, 4 + n) =~= body);
    vstd::utf8::encode_utf8_valid_utf8(s);
    vstd::utf8::encode_utf8_decode_utf8(s);
}

/// Reading a written string off a buffer that was cut after `n` bytes: it
/// fails where the cut falls inside the string, and else gives the string and
/// what the cut has left of the bytes behind it.
pub proof fn lemma_parse_cut_frame(s: Seq<char>, tail: Seq<u8>, n: int)
    requires
        fits_prefix(s),
        0 <= n <= string_frame(s).len() + tail.len(),
    ensures
        n < string_frame(s).len() ==> parse_string((string_frame(s) + tail).take(n)) is None,
        n >= string_frame(s).len() ==> parse_string((string_frame(s) + tail).take(n)) == Some(
            (s, tail.take(n - string_frame(s).len())),
        ),
{
    let body = encode_utf8(s);
    let len = body.len() as int;
    let cut = (string_frame(s) + tail).take(n);
    lemma_le_u32_of_prefix(len);
    if n >= 4 + len {
        assert(cut.subrange(4, 4 + len) =~= body);
        vstd::utf8::encode_utf8_valid_utf8(s);
        vstd::utf8::encode_utf8_decode_utf8(s);
    }
}

/// A string that was read off a buffer fits a prefix, and written again it is
/// the bytes it was read from.
pub proof fn lemma_parsed_frame(b: Seq<u8>)
    requires
        parse_string(b) is Some,
    ensures
        fits_prefix(parse_string(b).unwrap().0),
        string_frame(parse_string(b).unwrap().0) + parse_string(b).unwrap().1 == b,
{
    let n = announced(b);
    let body = b.subrange(4, 4 + n);
    lemma_le_u32_range(b.take(4));
    lemma_prefix_of_le_u32(b.take(4));
    vstd::utf8::decode_utf8_encode_utf8(body);
}

} // verus!
