use atproto_auth::crypto::consts::JwtAlg;
use atproto_auth::crypto::did::{format_did_key, format_multikey, parse_did_key, parse_multikey};
use atproto_auth::crypto::error::Error;
use atproto_auth::crypto::multibase::multibase_to_bytes;
use atproto_auth::crypto::p256::P256Plugin;
use atproto_auth::crypto::secp256k1::Secp256k1Plugin;
use atproto_auth::crypto::utils::{extract_multikey, extract_prefixed_bytes};
use atproto_auth::crypto::verify::verify_signature;
use atproto_auth::crypto::DidKeyPlugin;
use k256::ecdsa::signature::Signer;
use k256::elliptic_curve::sec1::ToEncodedPoint;

fn k256_key() -> k256::ecdsa::SigningKey {
    k256::ecdsa::SigningKey::from_slice(&[7u8; 32]).unwrap()
}

fn k256_uncompressed() -> Vec<u8> {
    k256_key().verifying_key().to_encoded_point(false).as_bytes().to_vec()
}

fn p256_uncompressed() -> Vec<u8> {
    let sk = p256::ecdsa::SigningKey::from_slice(&[9u8; 32]).unwrap();
    sk.verifying_key().to_encoded_point(false).as_bytes().to_vec()
}

#[test]
fn secp256k1_compress_then_decompress_gives_key_back() {
    let k = k256_uncompressed();
    assert_eq!(k.len(), 65);
    let c = Secp256k1Plugin.compress_pubkey(&k).unwrap();
    assert_eq!(c.len(), 33);
    assert!(c[0] == 2 || c[0] == 3);
    assert_eq!(&c[1..], &k[1..33]);
    assert_eq!(Secp256k1Plugin.decompress_pubkey(&c).unwrap(), k);
    assert!(matches!(Secp256k1Plugin.jwt_alg(), JwtAlg::Secp256k1));
}

#[test]
fn p256_compress_then_decompress_gives_key_back() {
    let k = p256_uncompressed();
    let c = P256Plugin.compress_pubkey(&k).unwrap();
    assert_eq!(c.len(), 33);
    assert_eq!(P256Plugin.decompress_pubkey(&c).unwrap(), k);
    assert!(matches!(P256Plugin.jwt_alg(), JwtAlg::P256));
}

#[test]
fn invalid_point_is_refused() {
    let mut bad = vec![2u8];
    bad.extend_from_slice(&[0xffu8; 32]);
    assert!(matches!(Secp256k1Plugin.decompress_pubkey(&bad), Err(Error::ECDSA(_))));
    assert!(matches!(Secp256k1Plugin.compress_pubkey(&[]), Err(Error::ECDSA(_))));
}

#[test]
fn secp256k1_multikey_round_trip() {
    let k = k256_uncompressed();
    let m = format_multikey(JwtAlg::Secp256k1, &k).unwrap();
    assert!(m.starts_with("zQ3s"));
    let parsed = parse_multikey(&m).unwrap();
    assert!(matches!(parsed.jwt_alg, JwtAlg::Secp256k1));
    assert_eq!(parsed.key, k);
    assert_eq!(format_multikey(parsed.jwt_alg, &parsed.key).unwrap(), m);
}

#[test]
fn p256_multikey_round_trip() {
    let k = p256_uncompressed();
    let m = format_multikey(JwtAlg::P256, &k).unwrap();
    assert!(m.starts_with("zDn"));
    let parsed = parse_multikey(&m).unwrap();
    assert!(matches!(parsed.jwt_alg, JwtAlg::P256));
    assert_eq!(parsed.key, k);
    assert_eq!(format_multikey(parsed.jwt_alg, &parsed.key).unwrap(), m);
}

#[test]
fn multikey_bytes_carry_family_tag() {
    let k = k256_uncompressed();
    let m = format_multikey(JwtAlg::Secp256k1, &k).unwrap();
    let bytes = extract_prefixed_bytes(&m).unwrap();
    assert_eq!(&bytes[..2], &[0xe7, 0x01]);
    assert_eq!(bytes.len(), 35);
    assert_eq!(bs58::decode(&m[1..]).into_vec().unwrap(), bytes);
}

#[test]
fn did_key_round_trip() {
    let k = k256_uncompressed();
    let did = format_did_key(JwtAlg::Secp256k1, &k).unwrap();
    assert!(did.starts_with("did:key:zQ3s"));
    assert_eq!(extract_multikey(&did).unwrap(), &did[8..]);
    let parsed = parse_did_key(&did).unwrap();
    assert_eq!(parsed.key, k);
}

#[test]
fn did_key_prefix_errors() {
    assert!(matches!(parse_did_key("did:web:example.com"), Err(Error::IncorrectDidKeyPrefix(d)) if d == "did:web:example.com"));
    assert!(matches!(parse_multikey("mABC"), Err(Error::IncorrectMultikeyPrefix(m)) if m == "mABC"));
    assert!(matches!(parse_multikey("z0OIl"), Err(Error::Base58(_))));
    let unknown = format!("z{}", bs58::encode([0x12u8, 0x00, 0x01, 0x02]).into_string());
    assert!(matches!(parse_multikey(&unknown), Err(Error::UnsupportedKeyType)));
    assert!(matches!(parse_multikey("z"), Err(Error::UnsupportedKeyType)));
    let mut bad = vec![0xe7u8, 0x01, 2];
    bad.extend_from_slice(&[0xffu8; 32]);
    let bad_point = format!("z{}", bs58::encode(bad).into_string());
    assert!(matches!(parse_multikey(&bad_point), Err(Error::ECDSA(_))));
}

#[test]
fn multibase_decoding() {
    let mb = format!("z{}", bs58::encode([1u8, 2, 3]).into_string());
    assert_eq!(multibase_to_bytes(&mb).unwrap(), vec![1u8, 2, 3]);
    assert!(matches!(multibase_to_bytes("mAQID"), Err(Error::UnsupportedMultibase(m)) if m == "mAQID"));
    assert!(matches!(multibase_to_bytes("z0"), Err(Error::Base58(_))));
    assert_eq!(multibase_to_bytes("z").unwrap(), Vec::<u8>::new());
}

#[test]
fn signature_checks_against_did_key() {
    let sk = k256_key();
    let did = format_did_key(JwtAlg::Secp256k1, &k256_uncompressed()).unwrap();
    let sig: k256::ecdsa::Signature = sk.sign(b"hello");
    let sig = sig.normalize_s().unwrap_or(sig);
    let bytes = sig.to_bytes().to_vec();
    assert!(verify_signature(&did, b"hello", &bytes).is_ok());
    assert!(matches!(verify_signature(&did, b"hullo", &bytes), Err(Error::Signature(_))));
    assert!(matches!(verify_signature(&did, b"hello", &bytes[..10]), Err(Error::Signature(_))));
    assert!(matches!(verify_signature("did:plc:abc", b"hello", &bytes), Err(Error::IncorrectDidKeyPrefix(_))));
}

#[test]
fn p256_signature_checks_against_did_key() {
    let sk = p256::ecdsa::SigningKey::from_slice(&[9u8; 32]).unwrap();
    let did = format_did_key(JwtAlg::P256, &p256_uncompressed()).unwrap();
    let sig: p256::ecdsa::Signature = sk.sign(b"msg");
    let bytes = sig.to_bytes().to_vec();
    assert!(verify_signature(&did, b"msg", &bytes).is_ok());
    assert!(matches!(verify_signature(&did, b"other", &bytes), Err(Error::Signature(_))));
}
