//! Failures of the key codec and of signature checks.
use vstd::prelude::*;

verus! {

/// Why a key could not be decoded or a signature did not check.
#[derive(Debug)]
pub enum Error {
    IncorrectDidKeyPrefix(String),
    IncorrectMultikeyPrefix(String),
    UnsupportedMultibase(String),
    UnsupportedKeyType,
    Base58(bs58::decode::Error),
    ECDSA(ecdsa::elliptic_curve::Error),
    Signature(ecdsa::signature::Error),
}

} // verus!
