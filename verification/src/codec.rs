//! What this library takes on trust from the string codec: how it reads and
//! writes one string.

use crate::wire::{fits_prefix, parse_string, string_frame};
use borsh::{BorshDeserialize, BorshSerialize};
use vstd::prelude::*;

verus! {

/// The error type of the string codec. Nothing inside it is read here; it is
/// carried to the caller as the codec gave it.
#[verifier::external_type_specification]
#[verifier::external_body]
pub struct ExIoError(std::io::Error);

/// Calls borsh's `BorshDeserialize::deserialize` for `String` on a cursor over
/// `buf` and hands back its result with what the cursor then has left.
///
/// Claimed of it: it reads a four-byte little-endian length, then that many
/// bytes, and succeeds exactly when both are there and the bytes are UTF-8.
/// The string is then the decoding of those bytes and the cursor stands right
/// behind them. Nothing is claimed of the cursor after a failure.
#[verifier::external_body]
pub(crate) fn read_string(buf: &[u8]) -> (r: (Result<String, std::io::Error>, &[u8]))
    ensures
        match parse_string(buf@) {
            Some((text, rest)) => r.0 matches Ok(s) && s@ == text && r.1@ == rest,
            None => r.0 is Err,
        },
{
    let mut rest: &[u8] = buf;
    let read = String::deserialize(&mut rest);
    (read, rest)
}

/// Calls borsh's `BorshSerialize::serialize` for `String` with `out` as the
/// writer.
///
/// Claimed of it: a string of at most `MAX_FIELD_BYTES` bytes is appended to
/// `out` as its little-endian length and its UTF-8 bytes; a longer one is
/// refused before anything is written.
#[verifier::external_body]
pub(crate) fn write_string(s: &String, out: &mut Vec<u8>) -> (r: Result<(), std::io::Error>)
    ensures
        fits_prefix(s@) ==> r is Ok && final(out)@ == old(out)@ + string_frame(s@),
        !fits_prefix(s@) ==> r is Err && final(out)@ == old(out)@,
{
    s.serialize(out)
}

} // verus!
