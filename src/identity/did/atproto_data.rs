//! The atproto signing key of a DID document, as a `did:key`.
use vstd::prelude::*;
use crate::common_web::did_doc::{atproto_fragment, verification_material, DidDocument};
use crate::crypto::consts::{multibase_prefix, JwtAlg};
use crate::crypto::did::{
    format_did_key, is_did_key_of, multikey_parse_error, multikey_parses, parse_multikey,
    parsed_family, parsed_key,
};
use crate::crypto::error::Error as CryptoError;
use crate::crypto::multibase::{base58_decoded, is_base58, multibase_to_bytes};
use crate::crypto::curve_point;
use crate::text::{starts_with, str_eq};

verus! {

/// Why no signing key could be had from a DID document.
#[derive(Debug)]
pub enum Error {
    SigningKeyNotFound(DidDocument),
    Crypto(CryptoError),
}

/// The family that a legacy verification-method type names.
pub open spec fn legacy_family(ty: Seq<char>) -> Option<JwtAlg> {
    if ty == "EcdsaSecp256r1VerificationKey2019"@ {
        Some(JwtAlg::P256)
    } else if ty == "EcdsaSecp256k1VerificationKey2019"@ {
        Some(JwtAlg::Secp256k1)
    } else {
        None
    }
}

/// How turning a verification method of type `ty` with multibase key `mb`
/// into a `did:key` ends.
pub open spec fn did_key_outcome(ty: Seq<char>, mb: Seq<char>, r: Result<String, Error>) -> bool {
    if legacy_family(ty) is Some {
        let alg = legacy_family(ty)->0;
        if !starts_with(mb, multibase_prefix()) {
            r matches Err(Error::Crypto(CryptoError::UnsupportedMultibase(m))) && m@ == mb
        } else if !is_base58(mb.skip(1)) {
            r matches Err(Error::Crypto(CryptoError::Base58(_)))
        } else {
            let key = base58_decoded(mb.skip(1));
            &&& (r is Ok <==> curve_point(alg, key) is Some)
            &&& (r matches Ok(s) ==> is_did_key_of(alg, key, s@))
            &&& (r matches Err(e) ==> e matches Error::Crypto(CryptoError::ECDSA(_)))
        }
    } else if ty == "Multikey"@ {
        &&& (r is Ok <==> multikey_parses(mb))
        &&& (r matches Ok(s) ==> is_did_key_of(parsed_family(mb), parsed_key(mb), s@))
        &&& (r matches Err(e) ==> (e matches Error::Crypto(c) && multikey_parse_error(mb, c)))
    } else {
        r matches Err(Error::Crypto(CryptoError::UnsupportedKeyType))
    }
}

/// The `did:key` of the signing key of a document, where it has one.
fn get_key(did_doc: &DidDocument) -> (r: Result<Option<String>, Error>)
    ensures
        match verification_material(*did_doc, atproto_fragment()) {
            None => r matches Ok(None),
            Some((ty, mb)) => match r {
                Ok(Some(s)) => did_key_outcome(ty, mb, Ok(s)),
                Ok(None) => false,
                Err(e) => did_key_outcome(ty, mb, Err(e)),
            },
        },
{
    match did_doc.get_signing_key() {
        Some(key) => match get_did_key_from_multibase(key) {
            Ok(s) => Ok(Some(s)),
            Err(e) => Err(e),
        },
        None => Ok(None),
    }
}

/// Turns a verification method's type and multibase key into a `did:key`.
fn get_did_key_from_multibase(key: (String, String)) -> (r: Result<String, Error>)
    ensures
        did_key_outcome(key.0@, key.1@, r),
{
    let (ty, public_key_multibase) = key;
    if str_eq(ty.as_str(), "EcdsaSecp256r1VerificationKey2019") {
        legacy_did_key(JwtAlg::P256, public_key_multibase.as_str())
    } else if str_eq(ty.as_str(), "EcdsaSecp256k1VerificationKey2019") {
        legacy_did_key(JwtAlg::Secp256k1, public_key_multibase.as_str())
    } else if str_eq(ty.as_str(), "Multikey") {
        let parsed = match parse_multikey(public_key_multibase.as_str()) {
            Ok(p) => p,
            Err(e) => return Err(Error::Crypto(e)),
        };
        match format_did_key(parsed.jwt_alg, parsed.key.as_slice()) {
            Ok(s) => Ok(s),
            Err(e) => Err(Error::Crypto(e)),
        }
    } else {
        Err(Error::Crypto(CryptoError::UnsupportedKeyType))
    }
}

/// The `did:key` of a key of the family given as a bare multibase point.
fn legacy_did_key(alg: JwtAlg, mb: &str) -> (r: Result<String, Error>)
    ensures
        !starts_with(mb@, multibase_prefix()) ==> (r matches Err(
            Error::Crypto(CryptoError::UnsupportedMultibase(m)),
        ) && m@ == mb@),
        starts_with(mb@, multibase_prefix()) && !is_base58(mb@.skip(1)) ==> r matches Err(
            Error::Crypto(CryptoError::Base58(_)),
        ),
        starts_with(mb@, multibase_prefix()) && is_base58(mb@.skip(1)) ==> {
            let key = base58_decoded(mb@.skip(1));
            &&& (r is Ok <==> curve_point(alg, key) is Some)
            &&& (r matches Ok(s) ==> is_did_key_of(alg, key, s@))
            &&& (r matches Err(e) ==> e matches Error::Crypto(CryptoError::ECDSA(_)))
        },
{
    let bytes = match multibase_to_bytes(mb) {
        Ok(b) => b,
        Err(e) => return Err(Error::Crypto(e)),
    };
    match format_did_key(alg, bytes.as_slice()) {
        Ok(s) => Ok(s),
        Err(e) => Err(Error::Crypto(e)),
    }
}

/// The `did:key` of the atproto signing key of a document.
pub fn ensure_atproto_key(did_doc: &DidDocument) -> (r: Result<String, Error>)
    ensures
        verification_material(*did_doc, atproto_fragment()) is None ==> r matches Err(
            Error::SigningKeyNotFound(_),
        ),
        verification_material(*did_doc, atproto_fragment()) matches Some((ty, mb))
            ==> did_key_outcome(ty, mb, r),
{
    match get_key(did_doc) {
        Ok(Some(s)) => Ok(s),
        Ok(None) => Err(Error::SigningKeyNotFound(did_doc.clone())),
        Err(e) => Err(e),
    }
}

} // verus!
