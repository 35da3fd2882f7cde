//! Base58-btc, and the multibase strings that carry it behind a `z`.
use vstd::prelude::*;
use crate::crypto::consts::{base58_multibase_prefix, multibase_prefix};
use crate::crypto::error::Error;
use crate::text::{starts_with, strip_prefix};

verus! {

/// The bytes that bs58 decodes from a string of the Bitcoin alphabet.
pub uninterp spec fn base58_decoded(s: Seq<char>) -> Seq<u8>;

/// The string that bs58 encodes from a byte sequence.
pub uninterp spec fn base58_encoded(b: Seq<u8>) -> Seq<char>;

/// A character of the Bitcoin base58 alphabet.
pub open spec fn is_base58_char(c: char) -> bool {
    ('1' <= c && c <= '9') || ('A' <= c && c <= 'H') || ('J' <= c && c <= 'N') || ('P' <= c
        && c <= 'Z') || ('a' <= c && c <= 'k') || ('m' <= c && c <= 'z')
}

/// Every character of `s` is in the base58 alphabet.
pub open spec fn is_base58(s: Seq<char>) -> bool {
    forall|i: int| 0 <= i < s.len() ==> is_base58_char(#[trigger] s[i])
}

/// Relies on `bs58::decode(..).into_vec()`: it fails exactly on a character
/// outside the alphabet (its output vector grows as needed), and base58 is a
/// bijection, so the bytes it returns encode back to the input.
#[verifier::external_body]
fn decode_base58(s: &str) -> (r: Result<Vec<u8>, bs58::decode::Error>)
    ensures
        r is Ok <==> is_base58(s@),
        r is Ok ==> r->Ok_0@ == base58_decoded(s@),
        r is Ok ==> base58_encoded(r->Ok_0@) == s@,
{
    bs58::decode(s.as_bytes()).into_vec()
}

/// Relies on `bs58::encode(..).into_string()` with the Bitcoin alphabet: it
/// writes each leading zero byte as `1` and the rest as the minimal base-58
/// digits, which `bs58::decode` reads back to the same bytes.
#[verifier::external_body]
pub(crate) fn encode_base58(b: &[u8]) -> (r: String)
    ensures
        r@ == base58_encoded(b@),
        is_base58(r@),
        base58_decoded(r@) == b@,
{
    bs58::encode(b).into_string()
}

/// Decodes `s` as base58 after a leading `z`; `None` where `s` has no `z` marker.
pub(crate) fn decode_z_base58(s: &str) -> (r: Option<Result<Vec<u8>, Error>>)
    ensures
        r is None <==> !starts_with(s@, multibase_prefix()),
        r matches Some(res) ==> {
            &&& (res is Ok <==> is_base58(s@.skip(1)))
            &&& (res is Err ==> res->Err_0 is Base58)
            &&& (res matches Ok(b) ==> b@ == base58_decoded(s@.skip(1)) && base58_encoded(b@)
                == s@.skip(1))
        },
{
    match strip_prefix(s, base58_multibase_prefix()) {
        None => None,
        Some(rest) => match decode_base58(rest) {
            Ok(b) => Some(Ok(b)),
            Err(e) => Some(Err(Error::Base58(e))),
        },
    }
}

/// Decodes a multibase string; only base58-btc (marker `z`) is accepted, and
/// the marker is not part of the digits.
pub fn multibase_to_bytes(mb: &str) -> (r: Result<Vec<u8>, Error>)
    ensures
        !starts_with(mb@, multibase_prefix()) ==> (r matches Err(Error::UnsupportedMultibase(
            m,
        )) && m@ == mb@),
        starts_with(mb@, multibase_prefix()) ==> {
            &&& (r is Ok <==> is_base58(mb@.skip(1)))
            &&& (r is Err ==> r->Err_0 is Base58)
            &&& (r matches Ok(b) ==> b@ == base58_decoded(mb@.skip(1)))
        },
{
    match decode_z_base58(mb) {
        None => Err(Error::UnsupportedMultibase(String::from_str(mb))),
        Some(res) => res,
    }
}

} // verus!
