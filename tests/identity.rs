use atproto_auth::common_web::did_doc::{DidDocument, Service, VerificationMethod};
use atproto_auth::crypto::consts::JwtAlg;
use atproto_auth::crypto::did::{format_did_key, parse_did_key};
use atproto_auth::crypto::error::Error as CryptoError;
use atproto_auth::identity::did::atproto_data::{ensure_atproto_key, Error as DataError};
use atproto_auth::identity::did::did_resolver::{
    atproto_key_from_document, ensure_resolve, DidResolver, Error, KeyStep,
};
use atproto_auth::identity::did::plc_resolver::DidPlcResolver;
use atproto_auth::client::FetchClient;
use k256::elliptic_curve::sec1::ToEncodedPoint;

fn k256_point(compress: bool) -> Vec<u8> {
    let sk = k256::ecdsa::SigningKey::from_slice(&[7u8; 32]).unwrap();
    sk.verifying_key().to_encoded_point(compress).as_bytes().to_vec()
}

fn method(id: &str, ty: &str, mb: Option<String>) -> VerificationMethod {
    VerificationMethod {
        id: id.to_string(),
        type_: ty.to_string(),
        controller: "did:plc:abc".to_string(),
        public_key_multibase: mb,
    }
}

fn doc(methods: Option<Vec<VerificationMethod>>) -> DidDocument {
    DidDocument {
        context: Some(vec!["https://www.w3.org/ns/did/v1".to_string()]),
        id: "did:plc:abc".to_string(),
        also_known_as: Some(vec!["https://x.example".to_string(), "at://alice.test".to_string(), "at://bob.test".to_string()]),
        verification_method: methods,
        service: Some(vec![
            Service {
                id: "#other".to_string(),
                type_: "Other".to_string(),
                service_endpoint: "https://other.example".to_string(),
            },
            Service {
                id: "did:plc:abc#atproto_pds".to_string(),
                type_: "AtprotoPersonalDataServer".to_string(),
                service_endpoint: "https://pds.example".to_string(),
            },
        ]),
    }
}

fn legacy_k256_multibase() -> String {
    format!("z{}", bs58::encode(k256_point(true)).into_string())
}

#[test]
fn document_accessors() {
    let d = doc(None);
    assert_eq!(d.get_did(), "did:plc:abc");
    assert_eq!(d.get_handle(), Some("alice.test".to_string()));
    assert_eq!(d.get_pds_endpoint(), Some("https://pds.example".to_string()));
    assert_eq!(d.get_service_endpoint(("#other", None)), Some("https://other.example".to_string()));
    assert_eq!(d.get_service_endpoint(("#other", Some("Wrong"))), None);
    assert_eq!(d.get_service_endpoint(("#missing", None)), None);
    assert_eq!(d.get_signing_key(), None);
    let mut no_alias = doc(None);
    no_alias.also_known_as = Some(vec!["https://x.example".to_string()]);
    assert_eq!(no_alias.get_handle(), None);
    no_alias.also_known_as = None;
    assert_eq!(no_alias.get_handle(), None);
}

#[test]
fn verification_material_by_short_and_long_id() {
    let d = doc(Some(vec![
        method("#other", "Multikey", Some("zA".to_string())),
        method("did:plc:abc#atproto", "Multikey", Some("zB".to_string())),
    ]));
    assert_eq!(d.get_signing_key(), Some(("Multikey".to_string(), "zB".to_string())));
    assert_eq!(d.get_verification_material("other"), Some(("Multikey".to_string(), "zA".to_string())));
    let without_key = doc(Some(vec![method("#atproto", "Multikey", None), method("#atproto", "Multikey", Some("zC".to_string()))]));
    assert_eq!(without_key.get_signing_key(), None);
}

#[test]
fn legacy_secp256k1_method_gives_did_key() {
    let d = doc(Some(vec![method(
        "#atproto",
        "EcdsaSecp256k1VerificationKey2019",
        Some(legacy_k256_multibase()),
    )]));
    let key = ensure_atproto_key(&d).unwrap();
    assert!(key.starts_with("did:key:z"));
    let bytes = bs58::decode(&key["did:key:z".len()..]).into_vec().unwrap();
    assert_eq!(&bytes[..2], &[0xe7, 0x01]);
    assert_eq!(&bytes[2..], &k256_point(true)[..]);
    assert_eq!(key, format_did_key(JwtAlg::Secp256k1, &k256_point(false)).unwrap());
}

#[test]
fn legacy_p256_method_gives_did_key() {
    let sk = p256::ecdsa::SigningKey::from_slice(&[9u8; 32]).unwrap();
    let c = sk.verifying_key().to_encoded_point(true).as_bytes().to_vec();
    let mb = format!("z{}", bs58::encode(&c).into_string());
    let d = doc(Some(vec![method("#atproto", "EcdsaSecp256r1VerificationKey2019", Some(mb))]));
    let key = ensure_atproto_key(&d).unwrap();
    assert!(key.starts_with("did:key:zDn"));
    assert!(matches!(parse_did_key(&key).unwrap().jwt_alg, JwtAlg::P256));
}

#[test]
fn legacy_p256_key_gives_tagged_compressed_did_key() {
    let sk = p256::ecdsa::SigningKey::from_slice(&[9u8; 32]).unwrap();
    let c = sk.verifying_key().to_encoded_point(true).as_bytes().to_vec();
    let d = doc(Some(vec![method("#atproto", "EcdsaSecp256r1VerificationKey2019", Some(format!("z{}", bs58::encode(&c).into_string())))]));
    let key = ensure_atproto_key(&d).unwrap();
    let bytes = bs58::decode(&key["did:key:z".len()..]).into_vec().unwrap();
    assert_eq!(&bytes[..2], &[0x80, 0x24]);
    assert_eq!(&bytes[2..], &c[..]);
}

#[test]
fn multikey_method_is_reformatted() {
    let did_key = format_did_key(JwtAlg::Secp256k1, &k256_point(false)).unwrap();
    let d = doc(Some(vec![method("#atproto", "Multikey", Some(did_key[8..].to_string()))]));
    assert_eq!(ensure_atproto_key(&d).unwrap(), did_key);
}

#[test]
fn signing_key_errors() {
    assert!(matches!(ensure_atproto_key(&doc(None)), Err(DataError::SigningKeyNotFound(_))));
    let unknown = doc(Some(vec![method("#atproto", "Ed25519VerificationKey2020", Some("zABC".to_string()))]));
    assert!(matches!(ensure_atproto_key(&unknown), Err(DataError::Crypto(CryptoError::UnsupportedKeyType))));
    let bad_base = doc(Some(vec![method("#atproto", "EcdsaSecp256k1VerificationKey2019", Some("uABC".to_string()))]));
    assert!(matches!(ensure_atproto_key(&bad_base), Err(DataError::Crypto(CryptoError::UnsupportedMultibase(_)))));
}

#[test]
fn did_key_needs_no_request() {
    let did_key = format_did_key(JwtAlg::Secp256k1, &k256_point(false)).unwrap();
    let resolver = DidResolver::new(FetchClient::new("https://api.example"), "https://plc.directory");
    match resolver.atproto_key_step(&did_key, false).unwrap() {
        KeyStep::Key(k) => assert_eq!(k, did_key),
        KeyStep::Fetch(_) => panic!("a did:key needs no request"),
    }
}

#[test]
fn plc_did_is_fetched_from_directory() {
    let resolver = DidResolver::new(FetchClient::new("https://api.example"), "https://plc.directory");
    match resolver.atproto_key_step("did:plc:abc123", false).unwrap() {
        KeyStep::Fetch(url) => assert_eq!(url, "https://plc.directory/did:plc:abc123"),
        KeyStep::Key(_) => panic!("a did:plc needs its document"),
    }
    assert_eq!(resolver.resolve_no_check("did:plc").unwrap(), "https://plc.directory/did:plc");
    assert_eq!(resolver.plc().request_uri("did:plc:x"), "https://plc.directory/did:plc:x");
    assert_eq!(resolver.plc().client().base_uri(), "https://api.example");
}

#[test]
fn other_methods_are_refused() {
    let resolver = DidResolver::new(FetchClient::new("https://api.example"), "https://plc.directory");
    assert!(matches!(resolver.resolve_no_check("did:web:example.com"), Err(Error::UnsupportedDidMethod(d)) if d == "did:web:example.com"));
    assert!(matches!(resolver.resolve_no_check("did:plcx:abc"), Err(Error::UnsupportedDidMethod(_))));
    assert!(matches!(resolver.resolve_no_check("plc:abc"), Err(Error::PoorlyFormattedDid(d)) if d == "plc:abc"));
    assert!(matches!(resolver.atproto_key_step("did", true), Err(Error::PoorlyFormattedDid(_))));
}

#[test]
fn directory_status_decides_document() {
    assert_eq!(DidPlcResolver::<FetchClient>::response_body(200, vec![1, 2]), Some(vec![1, 2]));
    assert_eq!(DidPlcResolver::<FetchClient>::response_body(299, vec![3]), Some(vec![3]));
    assert_eq!(DidPlcResolver::<FetchClient>::response_body(404, vec![1]), None);
    assert_eq!(DidPlcResolver::<FetchClient>::response_body(500, vec![]), None);
    assert_eq!(DidPlcResolver::<FetchClient>::resolve_no_check(Ok((200, vec![7]))).unwrap(), Some(vec![7]));
    assert_eq!(DidPlcResolver::<FetchClient>::resolve_no_check(Ok((404, vec![7]))).unwrap(), None);
    assert!(matches!(DidPlcResolver::<FetchClient>::resolve_no_check(Err("refused".to_string())), Err(Error::HttpClient(m)) if m == "refused"));
    assert!(matches!(ensure_resolve("did:plc:abc", None), Err(Error::DidNotFoundError(d)) if d == "did:plc:abc"));
    assert!(ensure_resolve("did:plc:abc", Some(doc(None))).is_ok());
}

#[test]
fn key_from_fetched_document() {
    assert!(matches!(atproto_key_from_document("did:plc:abc", None), Err(Error::DidNotFoundError(_))));
    assert!(matches!(atproto_key_from_document("did:plc:abc", Some(doc(None))), Err(Error::AtprotoData(DataError::SigningKeyNotFound(_)))));
    let d = doc(Some(vec![method("#atproto", "EcdsaSecp256k1VerificationKey2019", Some(legacy_k256_multibase()))]));
    let key = atproto_key_from_document("did:plc:abc", Some(d)).unwrap();
    assert_eq!(key, format_did_key(JwtAlg::Secp256k1, &k256_point(false)).unwrap());
}

#[test]
fn fetch_client_keeps_base_uri() {
    assert_eq!(FetchClient::new("https://api.bsky.app").base_uri(), "https://api.bsky.app");
}

#[test]
fn feed_generator_document() {
    let d = DidDocument::feed_generator("did:web:feed.example", "https://feed.example");
    assert_eq!(d.get_did(), "did:web:feed.example");
    assert_eq!(d.context, Some(vec!["https://www.w3.org/ns/did/v1".to_string()]));
    assert_eq!(d.get_service_endpoint(("#bsky_fg", Some("BskyFeedGenerator"))), Some("https://feed.example".to_string()));
    assert_eq!(d.get_handle(), None);
    assert_eq!(d.get_signing_key(), None);
}
