//! Public-key cryptography for `did:key` identifiers: per-curve point
//! encodings and signature checks, and the multikey codec built on them.
use vstd::prelude::*;
use crate::crypto::consts::JwtAlg;
use crate::crypto::error::Error;
use crate::crypto::p256::{p256_point, p256_verifies};
use crate::crypto::secp256k1::{secp256k1_point, secp256k1_verifies};
use crate::crypto::utils::{did_key_bytes, did_key_decodes, did_key_error};

pub mod consts;
pub mod did;
pub mod error;
pub mod multibase;
pub mod p256;
pub mod secp256k1;
pub mod utils;
pub mod verify;

verus! {

/// The uncompressed SEC1 encoding (`04 || x || y`) of the point that `sec1`
/// encodes on the family's curve, or `None` where `sec1` encodes no point of it.
pub open spec fn curve_point(alg: JwtAlg, sec1: Seq<u8>) -> Option<Seq<u8>> {
    match alg {
        JwtAlg::P256 => p256_point(sec1),
        JwtAlg::Secp256k1 => secp256k1_point(sec1),
    }
}

/// SEC1 compression of an uncompressed point `04 || x || y`: the tag `02` or
/// `03` by the parity of `y`, then `x`.
pub open spec fn sec1_compress(u: Seq<u8>) -> Seq<u8> {
    seq![(2 + u[64] % 2) as u8] + u.subrange(1, 33)
}

/// `k` is the uncompressed SEC1 encoding of a point of the family's curve.
pub open spec fn is_uncompressed_key(alg: JwtAlg, k: Seq<u8>) -> bool {
    k.len() == 65 && curve_point(alg, k) == Some(k)
}

/// `c` is the compressed encoding of the point that `k` encodes, and encodes
/// that same point.
pub open spec fn is_compression_of(alg: JwtAlg, k: Seq<u8>, c: Seq<u8>) -> bool {
    &&& curve_point(alg, k) matches Some(u)
    &&& c == sec1_compress(u)
    &&& curve_point(alg, c) == curve_point(alg, k)
}

/// `c` is a standard compressed SEC1 encoding: tag `02` or `03`, then `x`.
pub open spec fn is_compressed_form(c: Seq<u8>) -> bool {
    c.len() == 33 && (c[0] == 2 || c[0] == 3)
}

/// `d` is the uncompressed encoding of the point that `c` encodes: it encodes
/// that same point, compresses back to `c` where `c` is in standard compressed
/// form, and is `c` itself where `c` is already uncompressed.
pub open spec fn is_decompression_of(alg: JwtAlg, c: Seq<u8>, d: Seq<u8>) -> bool {
    &&& curve_point(alg, c) == Some(d)
    &&& is_uncompressed_key(alg, d)
    &&& is_compressed_form(c) ==> sec1_compress(d) == c
    &&& c.len() == 65 && c[0] == 4 ==> d == c
}

/// `sig` is a valid fixed-size `(r, s)` ECDSA signature of `msg` under the key
/// whose SEC1 encoding is `key`, on the family's curve.
pub open spec fn signature_verifies(alg: JwtAlg, key: Seq<u8>, msg: Seq<u8>, sig: Seq<u8>) -> bool {
    match alg {
        JwtAlg::P256 => p256_verifies(key, msg, sig),
        JwtAlg::Secp256k1 => secp256k1_verifies(key, msg, sig),
    }
}

/// How a signature check against the key of a `did:key` ends.
pub open spec fn did_key_verify_outcome(
    alg: JwtAlg,
    did: Seq<char>,
    msg: Seq<u8>,
    sig: Seq<u8>,
    r: Result<(), Error>,
) -> bool {
    if !did_key_decodes(did) {
        r matches Err(e) && did_key_error(did, e)
    } else if did_key_bytes(did).len() < 2 {
        r matches Err(Error::UnsupportedKeyType)
    } else {
        &&& (r is Ok <==> signature_verifies(alg, did_key_bytes(did).skip(2), msg, sig))
        &&& (r matches Err(e) ==> e is Signature)
    }
}

/// Decompressing the compression of an uncompressed secp256k1 key gives the
/// key back: for every valid uncompressed key `k`, what `compress_pubkey`
/// returns on `k`, `decompress_pubkey` turns back into `k`.
pub proof fn lemma_secp256k1_round_trip(k: Seq<u8>, c: Seq<u8>, d: Seq<u8>)
    requires
        is_uncompressed_key(JwtAlg::Secp256k1, k),
        is_compression_of(JwtAlg::Secp256k1, k, c),
        is_decompression_of(JwtAlg::Secp256k1, c, d),
    ensures
        d == k,
{
}

/// The operations of one curve family.
pub trait DidKeyPlugin {
    /// The family that this plugin serves.
    spec fn family(&self) -> JwtAlg;

    fn jwt_alg(&self) -> (r: JwtAlg)
        ensures
            r == self.family(),
    ;

    /// The compressed SEC1 encoding of a public key.
    fn compress_pubkey(&self, uncompressed: &[u8]) -> (r: Result<Vec<u8>, Error>)
        ensures
            r is Ok <==> curve_point(self.family(), uncompressed@) is Some,
            r matches Ok(c) ==> is_compression_of(self.family(), uncompressed@, c@),
            r matches Err(e) ==> e is ECDSA,
    ;

    /// The uncompressed SEC1 encoding of a public key.
    fn decompress_pubkey(&self, compressed: &[u8]) -> (r: Result<Vec<u8>, Error>)
        ensures
            r is Ok <==> curve_point(self.family(), compressed@) is Some,
            r matches Ok(d) ==> is_decompression_of(self.family(), compressed@, d@),
            r matches Err(e) ==> e is ECDSA,
    ;

    /// Checks `sig` over `msg` against the key that `did` carries.
    fn verify_signature(&self, did: &str, msg: &[u8], sig: &[u8]) -> (r: Result<(), Error>)
        ensures
            did_key_verify_outcome(self.family(), did@, msg@, sig@, r),
    ;
}

} // verus!
