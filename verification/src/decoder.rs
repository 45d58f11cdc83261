//! Reason decoder: best-effort conversion of raw revert bytes to a
//! displayable string. Never fails; it degrades from ABI-decoded string,
//! through plain ASCII text, to a `0x`-prefixed hex dump.
//!
//! Name-aware decoding against a set of known contract ABIs is the concern of
//! the external contract-metadata store and is not performed here.

use vstd::prelude::*;

verus! {

/// What alloy's validating ABI decode of a Solidity `string` returns on the
/// given bytes, if it succeeds.
pub uninterp spec fn abi_decoded_string(data: Seq<u8>) -> Option<Seq<char>>;

/// Relies on alloy_sol_types' `SolValue::abi_decode_validate` for `String`:
/// the result is a function of the input bytes alone.
#[verifier::external_body]
fn abi_decode_string(data: &Vec<u8>) -> (r: Option<String>)
    ensures
        r is Some <==> abi_decoded_string(data@) is Some,
        r matches Some(s) ==> s@ == abi_decoded_string(data@)->0,
{
    <String as alloy_sol_types::SolValue>::abi_decode_validate(data).ok()
}

pub open spec fn is_ascii_bytes(data: Seq<u8>) -> bool {
    forall|i: int| 0 <= i < data.len() ==> data[i] < 128
}

/// The characters of an ASCII byte sequence, one per byte.
pub open spec fn ascii_chars(data: Seq<u8>) -> Seq<char> {
    Seq::new(data.len(), |i: int| data[i] as char)
}

/// Relies on std's `str::from_utf8`: ASCII bytes are valid UTF-8 and decode
/// to the same sequence of characters, one per byte.
#[verifier::external_body]
fn ascii_to_string(data: &Vec<u8>) -> (r: String)
    requires
        is_ascii_bytes(data@),
    ensures
        r@ == ascii_chars(data@),
{
    std::str::from_utf8(data).unwrap().to_owned()
}

/// The lower-case hex digit of a nibble (`0..=15`): `0`-`9` then `a`-`f`.
pub open spec fn hex_digit(n: u8) -> char {
    if n < 10 {
        ((48 + n) as u8) as char
    } else {
        ((87 + n) as u8) as char
    }
}

/// Two lower-case hex digits per byte, high nibble first.
pub open spec fn hex_chars(data: Seq<u8>) -> Seq<char> {
    Seq::new(
        data.len() * 2,
        |i: int|
            if i % 2 == 0 {
                hex_digit(data[i / 2] / 16)
            } else {
                hex_digit(data[i / 2] % 16)
            },
    )
}

/// The `0x`-prefixed lower-case hex rendering of a byte sequence.
pub open spec fn hex_prefixed(data: Seq<u8>) -> Seq<char> {
    seq!['0', 'x'] + hex_chars(data)
}

/// Relies on alloy_primitives' `hex::encode_prefixed`: a `0x` prefix followed
/// by two lower-case hex digits per byte, high nibble first.
#[verifier::external_body]
fn hex_encode_prefixed(data: &Vec<u8>) -> (r: String)
    ensures
        r@ == hex_prefixed(data@),
{
    alloy_primitives::hex::encode_prefixed(data.as_slice())
}

/// The display string the decoder owes for the given bytes: the ABI-decoded
/// string when the bytes decode as one, else the bytes as plain text when
/// they are all ASCII, else their hex rendering.
pub open spec fn decoded_reason(data: Seq<u8>) -> Seq<char> {
    match abi_decoded_string(data) {
        Some(s) => s,
        None => if is_ascii_bytes(data) {
            ascii_chars(data)
        } else {
            hex_prefixed(data)
        },
    }
}

/// Whether every byte is ASCII (below 128).
fn is_ascii_vec(data: &Vec<u8>) -> (r: bool)
    ensures
        r == is_ascii_bytes(data@),
{
    let mut i: usize = 0;
    while i < data.len()
        invariant
            0 <= i <= data@.len(),
            forall|j: int| 0 <= j < i ==> data@[j] < 128,
        decreases data@.len() - i,
    {
        if data[i] >= 128 {
            return false;
        }
        i += 1;
    }
    true
}

/// Best-effort conversion of raw revert bytes to a displayable string. Always
/// produces some string, degrading gracefully; see [`decoded_reason`].
pub fn decode_revert_reason(data: &Vec<u8>) -> (r: String)
    ensures
        r@ == decoded_reason(data@),
{
    match abi_decode_string(data) {
        Some(s) => s,
        None => if is_ascii_vec(data) {
            ascii_to_string(data)
        } else {
            hex_encode_prefixed(data)
        },
    }
}

} // verus!
