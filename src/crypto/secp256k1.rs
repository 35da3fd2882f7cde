//! The secp256k1 curve family, through the `k256` crate.
use vstd::prelude::*;
use ecdsa::elliptic_curve::sec1::ToEncodedPoint;
use ecdsa::elliptic_curve::Error as CurveError;
use ecdsa::signature::Error as SignatureError;
use ecdsa::signature::Verifier;
use crate::crypto::consts::JwtAlg;
use crate::crypto::error::Error;
use crate::crypto::utils::extract_did_key_bytes;
use crate::crypto::{is_compression_of, is_decompression_of, DidKeyPlugin};
use vstd::slice::slice_subrange;

verus! {

/// The uncompressed SEC1 encoding of the secp256k1 point that `sec1` encodes, as
/// `k256` parses and re-encodes it; `None` where it rejects `sec1`.
pub uninterp spec fn secp256k1_point(sec1: Seq<u8>) -> Option<Seq<u8>>;

/// `k256`'s ECDSA verdict on `sig` (fixed-size `r || s`) over `msg` under
/// the key whose SEC1 encoding is `key`.
pub uninterp spec fn secp256k1_verifies(key: Seq<u8>, msg: Seq<u8>, sig: Seq<u8>) -> bool;

/// Relies on `PublicKey::<k256::Secp256k1>::from_sec1_bytes`, which accepts the SEC1
/// encodings of the curve's points, and `to_encoded_point(true)`, which
/// writes the point's standard compressed encoding.
#[verifier::external_body]
fn compress_sec1(sec1: &[u8]) -> (r: Result<Vec<u8>, CurveError>)
    ensures
        r is Ok <==> secp256k1_point(sec1@) is Some,
        r matches Ok(c) ==> is_compression_of(JwtAlg::Secp256k1, sec1@, c@),
{
    let point = ecdsa::elliptic_curve::PublicKey::<k256::Secp256k1>::from_sec1_bytes(sec1)?;
    Ok(point.to_encoded_point(true).as_bytes().to_vec())
}

/// Relies on `PublicKey::<k256::Secp256k1>::from_sec1_bytes` and
/// `to_encoded_point(false)`: the standard uncompressed encoding of the point
/// that was read, whose `x` and parity of `y` are those of a compressed input.
#[verifier::external_body]
fn decompress_sec1(sec1: &[u8]) -> (r: Result<Vec<u8>, CurveError>)
    ensures
        r is Ok <==> secp256k1_point(sec1@) is Some,
        r matches Ok(d) ==> is_decompression_of(JwtAlg::Secp256k1, sec1@, d@),
{
    let point = ecdsa::elliptic_curve::PublicKey::<k256::Secp256k1>::from_sec1_bytes(sec1)?;
    Ok(point.to_encoded_point(false).as_bytes().to_vec())
}

/// Relies on `VerifyingKey::<k256::Secp256k1>::from_sec1_bytes`,
/// `Signature::<k256::Secp256k1>::from_slice` and `Verifier::verify` (SHA-256 of the
/// message, then ECDSA); any of the three may refuse.
#[verifier::external_body]
fn ecdsa_verify(key: &[u8], msg: &[u8], sig: &[u8]) -> (r: Result<(), SignatureError>)
    ensures
        r is Ok <==> secp256k1_verifies(key@, msg@, sig@),
{
    let vk = ecdsa::VerifyingKey::<k256::Secp256k1>::from_sec1_bytes(key)?;
    let signature = ecdsa::Signature::<k256::Secp256k1>::from_slice(sig)?;
    vk.verify(msg, &signature)
}

/// The secp256k1 family.
pub struct Secp256k1Plugin;

impl DidKeyPlugin for Secp256k1Plugin {
    open spec fn family(&self) -> JwtAlg {
        JwtAlg::Secp256k1
    }

    fn jwt_alg(&self) -> (r: JwtAlg) {
        JwtAlg::Secp256k1
    }

    fn compress_pubkey(&self, uncompressed: &[u8]) -> (r: Result<Vec<u8>, Error>) {
        match compress_sec1(uncompressed) {
            Ok(c) => Ok(c),
            Err(e) => Err(Error::ECDSA(e)),
        }
    }

    fn decompress_pubkey(&self, compressed: &[u8]) -> (r: Result<Vec<u8>, Error>) {
        match decompress_sec1(compressed) {
            Ok(d) => Ok(d),
            Err(e) => Err(Error::ECDSA(e)),
        }
    }

    fn verify_signature(&self, did: &str, msg: &[u8], sig: &[u8]) -> (r: Result<(), Error>) {
        let prefixed = match extract_did_key_bytes(did) {
            Ok(b) => b,
            Err(e) => return Err(e),
        };
        if prefixed.len() < 2 {
            return Err(Error::UnsupportedKeyType);
        }
        let key = slice_subrange(prefixed.as_slice(), 2, prefixed.len());
        assert(key@ == prefixed@.skip(2));
        match ecdsa_verify(key, msg, sig) {
            Ok(()) => Ok(()),
            Err(e) => Err(Error::Signature(e)),
        }
    }
}

} // verus!
