//! The multikey codec (`z` + base58 of tag and compressed key) and the
//! `did:key` codec around it.
use vstd::prelude::*;
use vstd::slice::slice_subrange;
use crate::crypto::consts::{
    base58_multibase_prefix, did_key_prefix, did_key_prefix_str, family_of_tag, family_tag,
    multibase_prefix, JwtAlg,
};
use crate::crypto::error::Error;
use crate::crypto::multibase::{base58_decoded, base58_encoded, encode_base58, is_base58};
use crate::crypto::p256::P256Plugin;
use crate::crypto::secp256k1::Secp256k1Plugin;
use crate::crypto::utils::{
    extract_multikey, extract_prefixed_bytes, multikey_bytes, multikey_decodes, multikey_error,
    multikey_of,
};
use crate::crypto::{
    curve_point, is_compressed_form, is_compression_of, is_decompression_of, is_uncompressed_key,
    sec1_compress, DidKeyPlugin,
};
use crate::text::{concat, starts_with};

verus! {

/// A decoded multikey: the curve family and the uncompressed public key.
#[derive(Debug)]
pub struct ParsedMultikey {
    pub jwt_alg: JwtAlg,
    pub key: Vec<u8>,
}

/// `(alg, key)` is what the multikey `m` decodes to: its digits encode back
/// to themselves, its tag names `alg`, and `key` is the uncompressed form of
/// the point after the tag.
pub open spec fn is_parse_of(m: Seq<char>, alg: JwtAlg, key: Seq<u8>) -> bool {
    &&& multikey_decodes(m)
    &&& base58_encoded(multikey_bytes(m)) == m.skip(1)
    &&& family_of_tag(multikey_bytes(m)) == Some(alg)
    &&& is_decompression_of(alg, multikey_bytes(m).skip(2), key)
}

/// The multikey of a public key that encodes a point of the family's curve:
/// `z`, then base58 of the family tag and the compressed point.
pub open spec fn multikey_format(alg: JwtAlg, key: Seq<u8>) -> Seq<char> {
    multibase_prefix() + base58_encoded(family_tag(alg) + sec1_compress(curve_point(alg, key)->0))
}

/// The `did:key` of such a public key.
pub open spec fn did_key_format(alg: JwtAlg, key: Seq<u8>) -> Seq<char> {
    did_key_prefix() + multikey_format(alg, key)
}

/// `s` is the multikey of `key`: it is `multikey_format(alg, key)`, its digits
/// decode to the family tag and the compressed point, and it parses back to
/// the family and to the uncompressed form of the point.
pub open spec fn is_multikey_of(alg: JwtAlg, key: Seq<u8>, s: Seq<char>) -> bool {
    &&& s == multikey_format(alg, key)
    &&& multikey_decodes(s)
    &&& multikey_bytes(s) == family_tag(alg) + sec1_compress(curve_point(alg, key)->0)
    &&& multikey_parses(s)
    &&& parsed_family(s) == alg
    &&& parsed_key(s) == curve_point(alg, key)->0
}

/// `d` is the `did:key` of `key`: `did:key:` followed by its multikey.
pub open spec fn is_did_key_of(alg: JwtAlg, key: Seq<u8>, d: Seq<char>) -> bool {
    &&& d == did_key_format(alg, key)
    &&& starts_with(d, did_key_prefix())
    &&& is_multikey_of(alg, key, multikey_of(d))
}

/// Parsing the multikey of a valid uncompressed key gives back its family and
/// the key itself.
pub proof fn lemma_format_then_parse(alg: JwtAlg, k: Seq<u8>, m: Seq<char>)
    requires
        is_uncompressed_key(alg, k),
        is_multikey_of(alg, k, m),
    ensures
        multikey_parses(m),
        parsed_family(m) == alg,
        parsed_key(m) == k,
{
}

/// Parsing the `did:key` of a valid uncompressed key gives back its family
/// and the key itself.
pub proof fn lemma_did_key_format_then_parse(alg: JwtAlg, k: Seq<u8>, d: Seq<char>)
    requires
        is_uncompressed_key(alg, k),
        is_did_key_of(alg, k, d),
    ensures
        starts_with(d, did_key_prefix()),
        multikey_parses(multikey_of(d)),
        parsed_family(multikey_of(d)) == alg,
        parsed_key(multikey_of(d)) == k,
{
}

/// Re-formatting what the multikey of a valid uncompressed key parses to
/// gives the `did:key` of that very multikey.
pub proof fn lemma_multikey_reformat(alg: JwtAlg, k: Seq<u8>, m: Seq<char>)
    requires
        is_uncompressed_key(alg, k),
        is_multikey_of(alg, k, m),
    ensures
        did_key_format(parsed_family(m), parsed_key(m)) == did_key_prefix() + m,
{
}

/// Formatting what a multikey decodes to gives the multikey back, for every
/// multikey that decodes to a supported family and holds its point in
/// standard compressed form (one that holds the point in another SEC1 form
/// formats to the compressed spelling of the same key instead).
pub proof fn lemma_multikey_round_trip(m: Seq<char>, alg: JwtAlg, key: Seq<u8>)
    requires
        is_parse_of(m, alg, key),
        is_compressed_form(multikey_bytes(m).skip(2)),
    ensures
        multikey_format(alg, key) == m,
{
    let bytes = multikey_bytes(m);
    assert(family_tag(alg) + bytes.skip(2) =~= bytes);
    assert(multibase_prefix() + m.skip(1) =~= m);
}

/// The family whose two-byte multicodec tag opens `prefix`.
fn find_plugin(prefix: &[u8]) -> (r: Result<JwtAlg, Error>)
    ensures
        family_of_tag(prefix@) matches Some(alg) ==> r == Ok::<JwtAlg, Error>(alg),
        family_of_tag(prefix@) is None ==> r matches Err(Error::UnsupportedKeyType),
{
    if prefix.len() < 2 {
        Err(Error::UnsupportedKeyType)
    } else if prefix[0] == 0x80 && prefix[1] == 0x24 {
        Ok(JwtAlg::P256)
    } else if prefix[0] == 0xe7 && prefix[1] == 0x01 {
        Ok(JwtAlg::Secp256k1)
    } else {
        Err(Error::UnsupportedKeyType)
    }
}

/// The uncompressed form of a SEC1-encoded key of the family.
fn decompress_for(alg: JwtAlg, compressed: &[u8]) -> (r: Result<Vec<u8>, Error>)
    ensures
        r is Ok <==> curve_point(alg, compressed@) is Some,
        r matches Ok(d) ==> is_decompression_of(alg, compressed@, d@),
        r matches Err(e) ==> e is ECDSA,
{
    match alg {
        JwtAlg::P256 => P256Plugin.decompress_pubkey(compressed),
        JwtAlg::Secp256k1 => Secp256k1Plugin.decompress_pubkey(compressed),
    }
}

/// The compressed form of a SEC1-encoded key of the family.
fn compress_for(alg: JwtAlg, key: &[u8]) -> (r: Result<Vec<u8>, Error>)
    ensures
        r is Ok <==> curve_point(alg, key@) is Some,
        r matches Ok(c) ==> is_compression_of(alg, key@, c@),
        r matches Err(e) ==> e is ECDSA,
{
    match alg {
        JwtAlg::P256 => P256Plugin.compress_pubkey(key),
        JwtAlg::Secp256k1 => Secp256k1Plugin.compress_pubkey(key),
    }
}

/// The multikey `m` decodes to a key of a supported family.
pub open spec fn multikey_parses(m: Seq<char>) -> bool {
    &&& multikey_decodes(m)
    &&& family_of_tag(multikey_bytes(m)) matches Some(alg)
    &&& curve_point(alg, multikey_bytes(m).skip(2)) is Some
}

/// The family of a multikey that parses.
pub open spec fn parsed_family(m: Seq<char>) -> JwtAlg {
    family_of_tag(multikey_bytes(m))->0
}

/// The uncompressed key of a multikey that parses.
pub open spec fn parsed_key(m: Seq<char>) -> Seq<u8> {
    curve_point(parsed_family(m), multikey_bytes(m).skip(2))->0
}

/// The error with which decoding a multikey that does not parse fails.
pub open spec fn multikey_parse_error(m: Seq<char>, e: Error) -> bool {
    if !multikey_decodes(m) {
        multikey_error(m, e)
    } else if family_of_tag(multikey_bytes(m)) is None {
        e is UnsupportedKeyType
    } else {
        e is ECDSA
    }
}

/// How decoding the multikey `m` ends: the error for each way it can fail,
/// and where it succeeds, the family and key it holds.
pub open spec fn multikey_parse_outcome(m: Seq<char>, r: Result<ParsedMultikey, Error>) -> bool {
    if !multikey_decodes(m) {
        r matches Err(e) && multikey_error(m, e)
    } else if family_of_tag(multikey_bytes(m)) is None {
        r matches Err(Error::UnsupportedKeyType)
    } else {
        let alg = family_of_tag(multikey_bytes(m))->0;
        &&& (r is Ok <==> curve_point(alg, multikey_bytes(m).skip(2)) is Some)
        &&& (r matches Err(e) ==> e is ECDSA)
        &&& (r matches Ok(p) ==> is_parse_of(m, p.jwt_alg, p.key@))
    }
}

/// Decodes a multikey into its family and uncompressed public key.
pub fn parse_multikey(multikey: &str) -> (r: Result<ParsedMultikey, Error>)
    ensures
        multikey_parse_outcome(multikey@, r),
        r is Ok <==> multikey_parses(multikey@),
        r matches Ok(p) ==> p.jwt_alg == parsed_family(multikey@) && p.key@ == parsed_key(multikey@),
        r matches Err(e) ==> multikey_parse_error(multikey@, e),
{
    let prefixed = match extract_prefixed_bytes(multikey) {
        Ok(b) => b,
        Err(e) => return Err(e),
    };
    let alg = match find_plugin(prefixed.as_slice()) {
        Ok(alg) => alg,
        Err(e) => return Err(e),
    };
    let rest = slice_subrange(prefixed.as_slice(), 2, prefixed.len());
    assert(rest@ == prefixed@.skip(2));
    match decompress_for(alg, rest) {
        Ok(key) => Ok(ParsedMultikey { jwt_alg: alg, key }),
        Err(e) => Err(e),
    }
}

/// Encodes a public key of the family as a multikey.
pub fn format_multikey(jwt_alg: JwtAlg, key: &[u8]) -> (r: Result<String, Error>)
    ensures
        r is Ok <==> curve_point(jwt_alg, key@) is Some,
        r matches Ok(s) ==> is_multikey_of(jwt_alg, key@, s@),
        r matches Err(e) ==> e is ECDSA,
{
    let mut compressed = match compress_for(jwt_alg, key) {
        Ok(c) => c,
        Err(e) => return Err(e),
    };
    let mut prefixed: Vec<u8> = match jwt_alg {
        JwtAlg::P256 => vec![0x80u8, 0x24u8],
        JwtAlg::Secp256k1 => vec![0xe7u8, 0x01u8],
    };
    prefixed.append(&mut compressed);
    assert(prefixed@ =~= family_tag(jwt_alg) + sec1_compress(curve_point(jwt_alg, key@)->0));
    let ghost c = sec1_compress(curve_point(jwt_alg, key@)->0);
    let digits = encode_base58(prefixed.as_slice());
    let s = concat(base58_multibase_prefix(), digits.as_str());
    proof {
        assert(s@.skip(1) =~= digits@);
        assert(s@.subrange(0, 1) =~= multibase_prefix());
        assert(prefixed@.skip(2) =~= c);
    }
    Ok(s)
}

/// Decodes a `did:key` into its family and uncompressed public key.
pub fn parse_did_key(did: &str) -> (r: Result<ParsedMultikey, Error>)
    ensures
        !starts_with(did@, did_key_prefix()) ==> (r matches Err(Error::IncorrectDidKeyPrefix(d))
            && d@ == did@),
        starts_with(did@, did_key_prefix()) ==> multikey_parse_outcome(multikey_of(did@), r),
{
    match extract_multikey(did) {
        Ok(multikey) => parse_multikey(multikey),
        Err(e) => Err(e),
    }
}

/// Encodes a public key of the family as a `did:key`.
pub fn format_did_key(jwt_alg: JwtAlg, key: &[u8]) -> (r: Result<String, Error>)
    ensures
        r is Ok <==> curve_point(jwt_alg, key@) is Some,
        r matches Ok(s) ==> is_did_key_of(jwt_alg, key@, s@),
        r matches Err(e) ==> e is ECDSA,
{
    match format_multikey(jwt_alg, key) {
        Ok(mk) => {
            let s = concat(did_key_prefix_str(), mk.as_str());
            assert(s@.skip(did_key_prefix().len() as int) =~= mk@);
            assert(s@.subrange(0, did_key_prefix().len() as int) =~= did_key_prefix());
            Ok(s)
        },
        Err(e) => Err(e),
    }
}

} // verus!
