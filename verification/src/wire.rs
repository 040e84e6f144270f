//! Shared helpers for the byte-level wire formats.
//!
//! Both stream protocols (transactions and statistics events) carry each
//! message behind a four-byte little-endian length prefix; message payloads
//! embed unsigned integers in little-endian order and client strings as
//! UTF-8.

use vstd::bytes::{spec_u32_to_le_bytes, u32_to_le_bytes};
use vstd::prelude::*;
use vstd::utf8::{decode_utf8, encode_utf8, encode_utf8_decode_utf8, valid_utf8};

verus! {

/// Appends the four little-endian bytes of `x` to `out`.
pub fn push_u32_le(out: &mut Vec<u8>, x: u32)
    ensures
        final(out)@ == old(out)@ + spec_u32_to_le_bytes(x),
{
    let mut bytes = u32_to_le_bytes(x);
    out.append(&mut bytes);
}

/// Prefixes a message payload with its length as four little-endian bytes,
/// ready to be written to a stream transport.
pub fn encode_frame(payload: &[u8]) -> (r: Vec<u8>)
    requires
        payload@.len() <= u32::MAX,
    ensures
        r@ == spec_u32_to_le_bytes(payload@.len() as u32) + payload@,
        r@.len() == payload@.len() + 4,
{
    let mut out = u32_to_le_bytes(payload.len() as u32);
    out.extend_from_slice(payload);
    out
}

/// Decodes bytes as UTF-8 text, replacing malformed sequences instead of
/// failing, so that a corrupt client string never tears the connection down.
///
/// Relies on `String::from_utf8_lossy`: when the bytes are valid UTF-8, the
/// result is exactly the character sequence they encode.
#[verifier::external_body]
pub(crate) fn decode_utf8_lossy(bytes: &[u8]) -> (r: String)
    ensures
        valid_utf8(bytes@) ==> bytes@ == encode_utf8(r@),
{
    String::from_utf8_lossy(bytes).into_owned()
}

/// UTF-8 decoding inverts encoding: the decoder returns exactly the
/// characters whose encoding it was given.
pub proof fn lemma_encode_utf8_injective(a: Seq<char>, b: Seq<char>)
    requires
        encode_utf8(a) == encode_utf8(b),
    ensures
        a == b,
{
    broadcast use encode_utf8_decode_utf8;

    assert(decode_utf8(encode_utf8(a)) == a);
    assert(decode_utf8(encode_utf8(b)) == b);
}

} // verus!
