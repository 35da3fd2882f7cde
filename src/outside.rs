//! Error types of the outside crates that this library carries as causes.
use vstd::prelude::*;
use bs58::decode::Error as Base58DecodeError;
use ecdsa::elliptic_curve::Error as CurveError;
use ecdsa::signature::Error as SignatureError;
use http::Error as HttpError;
use serde_json::Error as JsonError;
use base64::DecodeError as Base64DecodeError;

verus! {

#[verifier::external_type_specification]
#[verifier::external_body]
pub struct ExBase58DecodeError(Base58DecodeError);

#[verifier::external_type_specification]
#[verifier::external_body]
pub struct ExCurveError(CurveError);

#[verifier::external_type_specification]
#[verifier::external_body]
pub struct ExSignatureError(SignatureError);

#[verifier::external_type_specification]
#[verifier::external_body]
pub struct ExHttpError(HttpError);

#[verifier::external_type_specification]
#[verifier::external_body]
pub struct ExJsonError(JsonError);

#[verifier::external_type_specification]
#[verifier::external_body]
pub struct ExBase64DecodeError(Base64DecodeError);

} // verus!
