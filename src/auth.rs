//! Verification of the bearer tokens (compact JWTs) that callers present.
use vstd::prelude::*;
use vstd::slice::slice_to_vec;
use vstd::utf8::encode_utf8;
use base64::Engine;
use base64::DecodeError as Base64DecodeError;
use crate::crypto;
use crate::crypto::signature_verifies;
use crate::crypto::utils::did_key_bytes;
use crate::crypto::verify::{did_key_family, did_key_parse_error, verify_signature};
use crate::identity::did::did_resolver;
use crate::text::{concat, starts_with, strip_prefix};

verus! {

/// The claims of a token that this service reads.
#[derive(Debug)]
pub struct JwtPayload {
    pub iss: String,
    pub aud: String,
    pub exp: i64,
}

/// Why a token is refused.
#[derive(Debug, Clone, Copy, PartialEq, Eq, Structural)]
pub enum JwtError {
    Bad,
    BadAudience,
    Expired,
}

/// Why a token could not be verified.
#[derive(Debug)]
pub enum Error {
    AuthRequiredError(JwtError, String),
    Base64Decode(Base64DecodeError),
    DidResolver(did_resolver::Error),
    Crypto(crypto::error::Error),
}

/// A token whose structure, expiry and audience have been checked, waiting
/// for its issuer's key: its claims, the signed text and the signature.
#[derive(Debug)]
pub struct PendingJwt {
    pub payload: JwtPayload,
    pub message: Vec<u8>,
    pub signature: Vec<u8>,
}

/// The earliest second that a `chrono::DateTime<Utc>` can hold
/// (-262143-01-01T00:00:00Z).
pub const MIN_TIMESTAMP: i64 = -8334601228800;

/// The latest second that a `chrono::DateTime<Utc>` can hold
/// (+262142-12-31T23:59:59Z).
pub const MAX_TIMESTAMP: i64 = 8210266876799;

/// What base64 (URL-safe alphabet, no padding) decodes from `s`, or `None`
/// where `s` is no such encoding.
pub uninterp spec fn base64url_decoded(s: Seq<char>) -> Option<Seq<u8>>;

/// The string member `key` of the JSON object in `b`, where `b` is JSON, is
/// an object and has such a member that is a string.
pub uninterp spec fn json_str_member(b: Seq<u8>, key: Seq<char>) -> Option<Seq<char>>;

/// The integer member `key` of the JSON object in `b`, where it is an integer
/// that fits an `i64`.
pub uninterp spec fn json_i64_member(b: Seq<u8>, key: Seq<char>) -> Option<i64>;

/// Relies on `URL_SAFE_NO_PAD.decode` of the base64 crate.
#[verifier::external_body]
fn decode_base64url(s: &str) -> (r: Result<Vec<u8>, Base64DecodeError>)
    ensures
        r is Ok <==> base64url_decoded(s@) is Some,
        r matches Ok(b) ==> b@ == base64url_decoded(s@)->0,
{
    base64::engine::general_purpose::URL_SAFE_NO_PAD.decode(s.as_bytes())
}

/// Relies on `serde_json::from_slice::<Value>`, `Value::get` and
/// `Value::as_str`.
#[verifier::external_body]
fn json_str_field(b: &[u8], key: &str) -> (r: Option<String>)
    ensures
        r is Some <==> json_str_member(b@, key@) is Some,
        r matches Some(s) ==> s@ == json_str_member(b@, key@)->0,
{
    let v: serde_json::Value = serde_json::from_slice(b).ok()?;
    v.get(key)?.as_str().map(String::from)
}

/// Relies on `serde_json::from_slice::<Value>`, `Value::get` and
/// `Value::as_i64`.
#[verifier::external_body]
fn json_i64_field(b: &[u8], key: &str) -> (r: Option<i64>)
    ensures
        r == json_i64_member(b@, key@),
{
    let v: serde_json::Value = serde_json::from_slice(b).ok()?;
    v.get(key)?.as_i64()
}

/// Relies on `chrono::DateTime::from_timestamp(secs, 0)`, which is `Some`
/// exactly for the seconds of its representable range.
#[verifier::external_body]
fn timestamp_in_range(secs: i64) -> (r: bool)
    ensures
        r == (MIN_TIMESTAMP <= secs <= MAX_TIMESTAMP),
{
    chrono::DateTime::from_timestamp(secs, 0).is_some()
}

/// The index of the first `.` in `s`, or its length where it has none.
pub open spec fn dot_index(s: Seq<char>) -> int
    decreases s.len(),
{
    if s.len() == 0 {
        0
    } else if s[0] == '.' {
        0
    } else {
        1 + dot_index(s.drop_first())
    }
}

/// The three segments of a compact token: what comes before the first `.`,
/// between the first and the second, and after the second (dots included).
/// `None` where the token has fewer than two dots.
pub open spec fn jwt_segments(s: Seq<char>) -> Option<(Seq<char>, Seq<char>, Seq<char>)> {
    let i = dot_index(s);
    if i >= s.len() {
        None
    } else {
        let t = s.skip(i + 1);
        let j = dot_index(t);
        if j >= t.len() {
            None
        } else {
            Some((s.take(i), t.take(j), t.skip(j + 1)))
        }
    }
}

/// The claims `(iss, aud, exp)` of a decoded payload.
pub open spec fn payload_claims(b: Seq<u8>) -> Option<(Seq<char>, Seq<char>, i64)> {
    match (json_str_member(b, "iss"@), json_str_member(b, "aud"@), json_i64_member(b, "exp"@)) {
        (Some(iss), Some(aud), Some(exp)) => Some((iss, aud, exp)),
        _ => None,
    }
}

/// A token that expires at `exp` has expired at the instant `now_secs` seconds
/// and `now_nanos` nanoseconds after the epoch: `exp` is a representable
/// instant strictly before it.
pub open spec fn is_expired(exp: i64, now_secs: i64, now_nanos: u32) -> bool {
    &&& MIN_TIMESTAMP <= exp <= MAX_TIMESTAMP
    &&& (exp < now_secs || (exp == now_secs && now_nanos > 0))
}

/// The audience check fails: one was asked for and the token names another.
pub open spec fn audience_mismatch(aud: Seq<char>, did: Option<&str>) -> bool {
    match did {
        Some(d) => aud != d@,
        None => false,
    }
}

/// `e` refuses the token as `kind`, with the message `msg`.
pub open spec fn is_refusal(e: Error, kind: JwtError, msg: Seq<char>) -> bool {
    e matches Error::AuthRequiredError(k, m) && k == kind && m@ == msg
}

/// How checking a token ends, before its issuer's key is needed.
pub open spec fn jwt_check_outcome(
    jwt: Seq<char>,
    did: Option<&str>,
    now_secs: i64,
    now_nanos: u32,
    r: Result<PendingJwt, Error>,
) -> bool {
    match jwt_segments(jwt) {
        None => (r matches Err(e) && is_refusal(e, JwtError::Bad, "poorly formatted jwt"@)),
        Some((header, payload, sig)) => match base64url_decoded(payload) {
            None => (r matches Err(e) && is_refusal(e, JwtError::Bad, "poorly formatted jwt"@)),
            Some(pb) => match payload_claims(pb) {
                None => (r matches Err(e) && is_refusal(e, JwtError::Bad, "poorly formatted jwt"@)),
                Some((iss, aud, exp)) => if is_expired(exp, now_secs, now_nanos) {
                    (r matches Err(e) && is_refusal(e, JwtError::Expired, "jwt expired"@))
                } else if audience_mismatch(aud, did) {
                    (r matches Err(e) && is_refusal(e, JwtError::BadAudience, "jwt audience does not match service did"@))
                } else {
                    match base64url_decoded(sig) {
                        None => r matches Err(Error::Base64Decode(_)),
                        Some(sb) => match r {
                            Ok(p) => {
                                &&& p.payload.iss@ == iss
                                &&& p.payload.aud@ == aud
                                &&& p.payload.exp == exp
                                &&& p.message@ == encode_utf8(header + seq!['.'] + payload)
                                &&& p.signature@ == sb
                            },
                            Err(_) => false,
                        },
                    }
                },
            },
        },
    }
}

/// The index of the first `.` of `s` at or after `from`, or its length.
fn find_dot(s: &str, from: usize) -> (r: usize)
    requires
        from <= s@.len(),
    ensures
        from + dot_index(s@.skip(from as int)) == r,
        from <= r <= s@.len(),
{
    let n = s.unicode_len();
    let mut i = from;
    while i < n && s.get_char(i) != '.'
        invariant
            n == s@.len(),
            from <= i <= n,
            forall|k: int| from <= k < i ==> s@[k] != '.',
        decreases n - i,
    {
        i = i + 1;
    }
    proof {
        let t = s@.skip(from as int);
        assert forall|k: int| 0 <= k < i - from implies t[k] != '.' by {
            assert(t[k] == s@[from + k]);
        }
        lemma_dot_index(t, (i - from) as int);
    }
    i
}

/// `i` is the first dot of `s` (or its length) exactly when no dot comes
/// before it and one stands at it (or it is the end).
proof fn lemma_dot_index(s: Seq<char>, i: int)
    requires
        0 <= i <= s.len(),
        forall|k: int| 0 <= k < i ==> s[k] != '.',
        i == s.len() || s[i] == '.',
    ensures
        dot_index(s) == i,
    decreases i,
{
    if i > 0 {
        assert forall|k: int| 0 <= k < i - 1 implies s.drop_first()[k] != '.' by {
            assert(s.drop_first()[k] == s[k + 1]);
        }
        lemma_dot_index(s.drop_first(), i - 1);
    }
}

/// Splits a compact token into its three segments.
fn split_jwt(jwt: &str) -> (r: Option<(&str, &str, &str)>)
    ensures
        match jwt_segments(jwt@) {
            None => r is None,
            Some((a, b, c)) => r matches Some((x, y, z)) && x@ == a && y@ == b && z@ == c,
        },
{
    let n = jwt.unicode_len();
    let i = find_dot(jwt, 0);
    assert(jwt@.skip(0) =~= jwt@);
    if i >= n {
        return None;
    }
    let j = find_dot(jwt, i + 1);
    let ghost t = jwt@.skip(i + 1);
    assert(jwt@.skip((i + 1) as int) == t);
    if j >= n {
        return None;
    }
    let header = jwt.substring_char(0, i);
    let payload = jwt.substring_char(i + 1, j);
    let sig = jwt.substring_char(j + 1, n);
    assert(header@ =~= jwt@.take(i as int));
    assert(payload@ =~= t.take(j - i - 1));
    assert(sig@ =~= t.skip(j - i));
    Some((header, payload, sig))
}

/// Decodes the payload segment of a token and reads its claims.
pub fn parse_payload(b64: &str) -> (r: Result<JwtPayload, Error>)
    ensures
        base64url_decoded(b64@) is None ==> (r matches Err(e) && is_refusal(e, JwtError::Bad, "poorly formatted jwt"@)),
        base64url_decoded(b64@) matches Some(b) ==> match payload_claims(b) {
            None => (r matches Err(e) && is_refusal(e, JwtError::Bad, "poorly formatted jwt"@)),
            Some((iss, aud, exp)) => r matches Ok(p) && p.iss@ == iss && p.aud@ == aud && p.exp
                == exp,
        },
{
    let decoded = match decode_base64url(b64) {
        Ok(b) => b,
        Err(_) => return Err(poorly_formatted()),
    };
    let iss = json_str_field(decoded.as_slice(), "iss");
    let aud = json_str_field(decoded.as_slice(), "aud");
    let exp = json_i64_field(decoded.as_slice(), "exp");
    match (iss, aud, exp) {
        (Some(iss), Some(aud), Some(exp)) => Ok(JwtPayload { iss, aud, exp }),
        _ => Err(poorly_formatted()),
    }
}

/// The refusal of a token that is no compact JWT.
fn poorly_formatted() -> (r: Error)
    ensures
        is_refusal(r, JwtError::Bad, "poorly formatted jwt"@),
{
    Error::AuthRequiredError(JwtError::Bad, String::from_str("poorly formatted jwt"))
}

/// Checks a token's structure, expiry (against the instant `now_secs` seconds
/// and `now_nanos` nanoseconds after the epoch) and audience (where `did` is
/// given), and decodes its signature: everything that comes before its
/// issuer's key is needed.
pub fn check_jwt(jwt: &str, did: Option<&str>, now_secs: i64, now_nanos: u32) -> (r: Result<
    PendingJwt,
    Error,
>)
    ensures
        jwt_check_outcome(jwt@, did, now_secs, now_nanos, r),
{
    let (header, payload_b64, sig) = match split_jwt(jwt) {
        Some(parts) => parts,
        None => return Err(poorly_formatted()),
    };
    let payload = match parse_payload(payload_b64) {
        Ok(p) => p,
        Err(e) => return Err(e),
    };
    if timestamp_in_range(payload.exp) && (payload.exp < now_secs || (payload.exp == now_secs
        && now_nanos > 0)) {
        return Err(
            Error::AuthRequiredError(JwtError::Expired, String::from_str("jwt expired")),
        );
    }
    if let Some(d) = did {
        if !crate::text::str_eq(payload.aud.as_str(), d) {
            return Err(
                Error::AuthRequiredError(
                    JwtError::BadAudience,
                    String::from_str("jwt audience does not match service did"),
                ),
            );
        }
    }
    proof {
        reveal_strlit(".");
    }
    let head_dot = concat(header, ".");
    let msg = concat(head_dot.as_str(), payload_b64);
    assert(msg@ =~= header@ + seq!['.'] + payload_b64@);
    let message = slice_to_vec(msg.as_str().as_bytes());
    let signature = match decode_base64url(sig) {
        Ok(b) => b,
        Err(e) => return Err(Error::Base64Decode(e)),
    };
    Ok(PendingJwt { payload, message, signature })
}

/// `"Bearer "`, as characters.
pub open spec fn bearer_prefix() -> Seq<char> {
    seq!['B', 'e', 'a', 'r', 'e', 'r', ' ']
}

/// The token of an `Authorization` header value of the bearer scheme.
pub fn bearer_token(authorization: &str) -> (r: Option<String>)
    ensures
        starts_with(authorization@, bearer_prefix()) ==> (r matches Some(t) && t@
            == authorization@.skip(7)),
        !starts_with(authorization@, bearer_prefix()) ==> r is None,
{
    proof {
        reveal_strlit("Bearer ");
    }
    let prefix = "Bearer ";
    assert(prefix@ =~= bearer_prefix());
    match strip_prefix(authorization, prefix) {
        Some(token) => Some(String::from_str(token)),
        None => None,
    }
}

/// The `did:key` `key` accepts `sig` as a signature of `msg`.
pub open spec fn key_accepts(key: Seq<char>, msg: Seq<u8>, sig: Seq<u8>) -> bool {
    &&& did_key_family(key) matches Some(alg)
    &&& signature_verifies(alg, did_key_bytes(key).skip(2), msg, sig)
}

/// The errors with which finishing a token ends: the provider's own error,
/// unchanged; else the error of the signature check, where the key has no
/// family that decoding it yields, or the signature did not verify.
pub open spec fn finish_error_outcome(
    signing_key: Result<String, Error>,
    r: Result<JwtPayload, Error>,
) -> bool {
    match signing_key {
        Err(e) => r == Err::<JwtPayload, Error>(e),
        Ok(k) => match r {
            Ok(_) => true,
            Err(Error::Crypto(c)) => if did_key_family(k@) is None {
                did_key_parse_error(k@, c)
            } else {
                c is Signature
            },
            Err(_) => false,
        },
    }
}

/// Finishes a checked token with the `did:key` that the signing-key provider
/// gave for its issuer (or the provider's error): the token's claims where
/// that key accepts its signature.
pub fn finish_jwt(pending: PendingJwt, signing_key: Result<String, Error>) -> (r: Result<
    JwtPayload,
    Error,
>)
    ensures
        finish_error_outcome(signing_key, r),
        signing_key matches Ok(k) ==> (r is Ok <==> key_accepts(
            k@,
            pending.message@,
            pending.signature@,
        )),
        r matches Ok(p) ==> p == pending.payload,
{
    let key = match signing_key {
        Ok(k) => k,
        Err(e) => return Err(e),
    };
    match verify_signature(key.as_str(), pending.message.as_slice(), pending.signature.as_slice()) {
        Ok(()) => Ok(pending.payload),
        Err(e) => Err(Error::Crypto(e)),
    }
}

/// What `dot_index` finds: no dot before it, and a dot at it unless it is the
/// length.
proof fn lemma_dot_index_bounds(s: Seq<char>)
    ensures
        0 <= dot_index(s) <= s.len(),
        forall|k: int| 0 <= k < dot_index(s) ==> s[k] != '.',
        dot_index(s) < s.len() ==> s[dot_index(s)] == '.',
    decreases s.len(),
{
    if s.len() > 0 && s[0] != '.' {
        lemma_dot_index_bounds(s.drop_first());
        assert forall|k: int| 0 <= k < dot_index(s) implies s[k] != '.' by {
            if k > 0 {
                assert(s[k] == s.drop_first()[k - 1]);
            }
        }
    }
}

/// A token of two or fewer dot-separated parts is refused as badly formed,
/// whatever it holds.
pub proof fn lemma_short_token_rejected(
    jwt: Seq<char>,
    did: Option<&str>,
    now_secs: i64,
    now_nanos: u32,
    r: Result<PendingJwt, Error>,
)
    requires
        forall|i: int, j: int| 0 <= i < j < jwt.len() && jwt[i] == '.' ==> jwt[j] != '.',
        jwt_check_outcome(jwt, did, now_secs, now_nanos, r),
    ensures
        (r matches Err(e) && is_refusal(e, JwtError::Bad, "poorly formatted jwt"@)),
{
    let i = dot_index(jwt);
    lemma_dot_index_bounds(jwt);
    if i < jwt.len() {
        let t = jwt.skip(i + 1);
        lemma_dot_index_bounds(t);
        if dot_index(t) < t.len() {
            assert(jwt[i + 1 + dot_index(t)] == t[dot_index(t)]);
        }
    }
}

/// Against the same instant, a token that expired one second earlier is
/// refused as expired, and one that expires one second later is not.
pub proof fn lemma_expiry_one_second(
    jwt: Seq<char>,
    did: Option<&str>,
    now_secs: i64,
    now_nanos: u32,
    r: Result<PendingJwt, Error>,
)
    requires
        MIN_TIMESTAMP < now_secs < MAX_TIMESTAMP,
        jwt_segments(jwt) matches Some((h, p, s)) && base64url_decoded(p) matches Some(pb)
            && payload_claims(pb) is Some,
        jwt_check_outcome(jwt, did, now_secs, now_nanos, r),
    ensures
        ({
            let (h, p, s) = jwt_segments(jwt)->0;
            let (iss, aud, exp) = payload_claims(base64url_decoded(p)->0)->0;
            &&& (exp == now_secs - 1 ==> (r matches Err(e) && is_refusal(
                e,
                JwtError::Expired,
                "jwt expired"@,
            )))
            &&& (exp == now_secs + 1 ==> !(r matches Err(
                Error::AuthRequiredError(JwtError::Expired, _),
            )))
        }),
{
}

/// A token that names another audience than the one asked for is refused as
/// such, where it is well formed and not expired.
pub proof fn lemma_wrong_audience_rejected(
    jwt: Seq<char>,
    did: &str,
    now_secs: i64,
    now_nanos: u32,
    r: Result<PendingJwt, Error>,
)
    requires
        jwt_segments(jwt) matches Some((h, p, s)) && base64url_decoded(p) matches Some(pb)
            && payload_claims(pb) matches Some((iss, aud, exp)) && aud != did@ && !is_expired(
            exp,
            now_secs,
            now_nanos,
        ),
        jwt_check_outcome(jwt, Some(did), now_secs, now_nanos, r),
    ensures
        (r matches Err(e) && is_refusal(e, JwtError::BadAudience, "jwt audience does not match service did"@)),
{
}

} // verus!
