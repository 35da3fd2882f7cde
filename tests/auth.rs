use atproto_auth::auth::{bearer_token, check_jwt, finish_jwt, parse_payload, Error, JwtError, JwtPayload};
use atproto_auth::crypto::consts::JwtAlg;
use atproto_auth::crypto::did::format_did_key;
use atproto_auth::crypto::error::Error as CryptoError;
use base64::engine::general_purpose::URL_SAFE_NO_PAD;
use base64::Engine;
use k256::ecdsa::signature::Signer;
use k256::elliptic_curve::sec1::ToEncodedPoint;

const NOW: i64 = 1_700_000_000;

fn signing_key() -> k256::ecdsa::SigningKey {
    k256::ecdsa::SigningKey::from_slice(&[7u8; 32]).unwrap()
}

fn issuer() -> String {
    let point = signing_key().verifying_key().to_encoded_point(false);
    format_did_key(JwtAlg::Secp256k1, point.as_bytes()).unwrap()
}

fn token(payload: &str) -> String {
    let header = URL_SAFE_NO_PAD.encode(br#"{"alg":"ES256K"}"#);
    let body = URL_SAFE_NO_PAD.encode(payload.as_bytes());
    let input = format!("{header}.{body}");
    let sig: k256::ecdsa::Signature = signing_key().sign(input.as_bytes());
    let sig = sig.normalize_s().unwrap_or(sig);
    format!("{input}.{}", URL_SAFE_NO_PAD.encode(sig.to_bytes()))
}

fn claims(aud: &str, exp: i64) -> String {
    format!(r#"{{"iss":"{}","aud":"{aud}","exp":{exp}}}"#, issuer())
}

fn verify(jwt: &str, aud: Option<&str>) -> Result<JwtPayload, Error> {
    let pending = check_jwt(jwt, aud, NOW, 0)?;
    let key = Ok(pending.payload.iss.clone());
    finish_jwt(pending, key)
}

#[test]
fn end_to_end_token_is_accepted() {
    let jwt = token(&claims("did:example:service", NOW + 3600));
    let payload = verify(&jwt, Some("did:example:service")).unwrap();
    assert_eq!(payload.iss, issuer());
    assert_eq!(payload.aud, "did:example:service");
    assert_eq!(payload.exp, NOW + 3600);
}

#[test]
fn token_with_two_parts_is_bad() {
    for jwt in ["abc", "a.b", "", ".", "x.y", "eyJhbGciOiJFUzI1NksifQ.eyJpc3MiOiJhIiwiYXVkIjoiYiIsImV4cCI6MX0"] {
        assert!(matches!(check_jwt(jwt, Some("b"), NOW, 0), Err(Error::AuthRequiredError(JwtError::Bad, m)) if m == "poorly formatted jwt"));
    }
    let bad_payload = "eyJhbGciOiJFUzI1NksifQ.!!!.c2ln";
    assert!(matches!(check_jwt(bad_payload, None, NOW, 0), Err(Error::AuthRequiredError(JwtError::Bad, m)) if m == "poorly formatted jwt"));
}

#[test]
fn expiry_one_second_either_side() {
    let past = token(&claims("did:example:service", NOW - 1));
    assert!(matches!(verify(&past, None), Err(Error::AuthRequiredError(JwtError::Expired, m)) if m == "jwt expired"));
    let early = "eyJhbGciOiJFUzI1NksifQ.eyJpc3MiOiJhIiwiYXVkIjoiYiIsImV4cCI6MX0.c2ln";
    assert!(matches!(check_jwt(early, Some("other"), NOW, 0), Err(Error::AuthRequiredError(JwtError::Expired, m)) if m == "jwt expired"));
    let future = token(&claims("did:example:service", NOW + 1));
    assert!(verify(&future, None).is_ok());
    let now = token(&claims("did:example:service", NOW));
    assert!(check_jwt(&now, None, NOW, 0).is_ok());
    assert!(matches!(check_jwt(&now, None, NOW, 1), Err(Error::AuthRequiredError(JwtError::Expired, _))));
}

#[test]
fn unrepresentable_expiry_is_not_checked() {
    let far = token(&claims("did:example:service", i64::MIN));
    assert!(verify(&far, None).is_ok());
}

#[test]
fn wrong_audience_is_refused() {
    let jwt = token(&claims("did:example:other", NOW + 60));
    assert!(matches!(verify(&jwt, Some("did:example:service")), Err(Error::AuthRequiredError(JwtError::BadAudience, m)) if m == "jwt audience does not match service did"));
    assert!(verify(&jwt, None).is_ok());
}

#[test]
fn malformed_payloads() {
    assert!(matches!(parse_payload("!!!"), Err(Error::AuthRequiredError(JwtError::Bad, m)) if m == "poorly formatted jwt"));
    let not_json = URL_SAFE_NO_PAD.encode(b"hello");
    assert!(matches!(parse_payload(&not_json), Err(Error::AuthRequiredError(JwtError::Bad, _))));
    let missing_exp = URL_SAFE_NO_PAD.encode(br#"{"iss":"a","aud":"b"}"#);
    assert!(matches!(parse_payload(&missing_exp), Err(Error::AuthRequiredError(JwtError::Bad, _))));
    let ok = URL_SAFE_NO_PAD.encode(br#"{"iss":"a","aud":"b","exp":5,"extra":true}"#);
    let p = parse_payload(&ok).unwrap();
    assert_eq!((p.iss.as_str(), p.aud.as_str(), p.exp), ("a", "b", 5));
}

#[test]
fn signed_input_is_header_dot_payload() {
    let jwt = token(&claims("did:example:service", NOW + 60));
    let parts: Vec<&str> = jwt.split('.').collect();
    let pending = check_jwt(&jwt, None, NOW, 0).unwrap();
    assert_eq!(pending.message, format!("{}.{}", parts[0], parts[1]).into_bytes());
    assert_eq!(pending.signature, URL_SAFE_NO_PAD.decode(parts[2]).unwrap());
}

#[test]
fn bad_signature_is_refused() {
    let jwt = token(&claims("did:example:service", NOW + 60));
    let (rest, _) = jwt.rsplit_once('.').unwrap();
    let forged = format!("{rest}.{}", URL_SAFE_NO_PAD.encode([1u8; 64]));
    assert!(matches!(verify(&forged, None), Err(Error::Crypto(CryptoError::Signature(_)))));
    let undecodable = format!("{rest}.@@@");
    assert!(matches!(verify(&undecodable, None), Err(Error::Base64Decode(_))));
}

#[test]
fn provider_error_is_passed_on() {
    let jwt = token(&claims("did:example:service", NOW + 60));
    let pending = check_jwt(&jwt, None, NOW, 0).unwrap();
    let failed = Err(Error::AuthRequiredError(JwtError::Bad, "no key".to_string()));
    assert!(matches!(finish_jwt(pending, failed), Err(Error::AuthRequiredError(JwtError::Bad, m)) if m == "no key"));
    let pending = check_jwt(&jwt, None, NOW, 0).unwrap();
    assert!(matches!(finish_jwt(pending, Ok("did:plc:abc".to_string())), Err(Error::Crypto(CryptoError::IncorrectDidKeyPrefix(d))) if d == "did:plc:abc"));
}

#[test]
fn bearer_token_is_taken_from_header() {
    assert_eq!(bearer_token("Bearer abc.def.ghi"), Some("abc.def.ghi".to_string()));
    assert_eq!(bearer_token("Bearer "), Some(String::new()));
    assert_eq!(bearer_token("Basic abc"), None);
    assert_eq!(bearer_token("bearer abc"), None);
}
