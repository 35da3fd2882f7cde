//! Signature checks against the key that a `did:key` carries.
use vstd::prelude::*;
use crate::crypto::consts::{family_of_tag, JwtAlg};
use crate::crypto::did::parse_did_key;
use crate::crypto::error::Error;
use crate::crypto::p256::P256Plugin;
use crate::crypto::secp256k1::Secp256k1Plugin;
use crate::crypto::utils::{did_key_bytes, did_key_decodes, did_key_error};
use crate::crypto::{curve_point, did_key_verify_outcome, DidKeyPlugin};

verus! {

/// The family of a `did:key` whose key decodes to a point of its curve.
pub open spec fn did_key_family(did: Seq<char>) -> Option<JwtAlg> {
    if did_key_decodes(did) {
        match family_of_tag(did_key_bytes(did)) {
            Some(alg) => if curve_point(alg, did_key_bytes(did).skip(2)) is Some {
                Some(alg)
            } else {
                None
            },
            None => None,
        }
    } else {
        None
    }
}

/// The error with which decoding a `did:key` that has no family fails.
pub open spec fn did_key_parse_error(did: Seq<char>, e: Error) -> bool {
    if !did_key_decodes(did) {
        did_key_error(did, e)
    } else if family_of_tag(did_key_bytes(did)) is None {
        e is UnsupportedKeyType
    } else {
        e is ECDSA
    }
}

/// Checks the signature `sig` of `msg` against the key of `did_key`, on the
/// curve that its multicodec tag names.
pub fn verify_signature(did_key: &str, msg: &[u8], sig: &[u8]) -> (r: Result<(), Error>)
    ensures
        did_key_family(did_key@) matches Some(alg) ==> did_key_verify_outcome(
            alg,
            did_key@,
            msg@,
            sig@,
            r,
        ),
        did_key_family(did_key@) is None ==> (r matches Err(e) && did_key_parse_error(did_key@, e)),
{
    let parsed = match parse_did_key(did_key) {
        Ok(p) => p,
        Err(e) => return Err(e),
    };
    match parsed.jwt_alg {
        JwtAlg::P256 => P256Plugin.verify_signature(did_key, msg, sig),
        JwtAlg::Secp256k1 => Secp256k1Plugin.verify_signature(did_key, msg, sig),
    }
}

} // verus!
