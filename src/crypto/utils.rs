//! Taking a `did:key` apart: the multikey behind the prefix, and the bytes
//! behind the multibase marker.
use vstd::prelude::*;
use crate::crypto::consts::{did_key_prefix, did_key_prefix_str, multibase_prefix};
use crate::crypto::error::Error;
use crate::crypto::multibase::{base58_decoded, base58_encoded, decode_z_base58, is_base58};
use crate::text::{starts_with, strip_prefix};

verus! {

/// The multikey part of a `did:key`.
pub open spec fn multikey_of(did: Seq<char>) -> Seq<char> {
    did.skip(did_key_prefix().len() as int)
}

/// A multikey decodes to bytes: it has the `z` marker and base58 digits.
pub open spec fn multikey_decodes(mk: Seq<char>) -> bool {
    starts_with(mk, multibase_prefix()) && is_base58(mk.skip(1))
}

/// The bytes (multicodec tag included) that a decodable multikey holds.
pub open spec fn multikey_bytes(mk: Seq<char>) -> Seq<u8> {
    base58_decoded(mk.skip(1))
}

/// The error that decoding a multikey ends with, where it does not decode.
pub open spec fn multikey_error(mk: Seq<char>, e: Error) -> bool {
    if !starts_with(mk, multibase_prefix()) {
        e matches Error::IncorrectMultikeyPrefix(m) && m@ == mk
    } else {
        e is Base58
    }
}

/// A `did:key` decodes to bytes.
pub open spec fn did_key_decodes(did: Seq<char>) -> bool {
    starts_with(did, did_key_prefix()) && multikey_decodes(multikey_of(did))
}

/// The bytes (multicodec tag included) that a decodable `did:key` holds.
pub open spec fn did_key_bytes(did: Seq<char>) -> Seq<u8> {
    multikey_bytes(multikey_of(did))
}

/// The error that decoding a `did:key` ends with, where it does not decode.
pub open spec fn did_key_error(did: Seq<char>, e: Error) -> bool {
    if !starts_with(did, did_key_prefix()) {
        e matches Error::IncorrectDidKeyPrefix(d) && d@ == did
    } else {
        multikey_error(multikey_of(did), e)
    }
}

/// The multikey behind the `did:key:` prefix.
pub fn extract_multikey(did: &str) -> (r: Result<&str, Error>)
    ensures
        r is Ok <==> starts_with(did@, did_key_prefix()),
        r matches Ok(mk) ==> mk@ == multikey_of(did@),
        r matches Err(e) ==> (e matches Error::IncorrectDidKeyPrefix(d) && d@ == did@),
{
    match strip_prefix(did, did_key_prefix_str()) {
        Some(mk) => Ok(mk),
        None => Err(Error::IncorrectDidKeyPrefix(String::from_str(did))),
    }
}

/// The bytes of a multikey: base58 after the `z` marker.
pub fn extract_prefixed_bytes(multikey: &str) -> (r: Result<Vec<u8>, Error>)
    ensures
        r is Ok <==> multikey_decodes(multikey@),
        r matches Ok(b) ==> b@ == multikey_bytes(multikey@) && base58_encoded(b@) == multikey@.skip(1),
        r matches Err(e) ==> multikey_error(multikey@, e),
{
    match decode_z_base58(multikey) {
        None => Err(Error::IncorrectMultikeyPrefix(String::from_str(multikey))),
        Some(res) => res,
    }
}

/// The bytes of the multikey that a `did:key` carries.
pub fn extract_did_key_bytes(did: &str) -> (r: Result<Vec<u8>, Error>)
    ensures
        r is Ok <==> did_key_decodes(did@),
        r matches Ok(b) ==> b@ == did_key_bytes(did@),
        r matches Err(e) ==> did_key_error(did@, e),
{
    match extract_multikey(did) {
        Ok(mk) => extract_prefixed_bytes(mk),
        Err(e) => Err(e),
    }
}

} // verus!
