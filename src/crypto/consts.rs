//! Fixed markers of the `did:key` format and the curve families it carries.
use vstd::prelude::*;

verus! {

/// The curve family of a public key.
#[derive(Debug, Clone, Copy, PartialEq, Eq, Structural)]
pub enum JwtAlg {
    P256,
    Secp256k1,
}

/// `"z"`, as characters.
pub open spec fn multibase_prefix() -> Seq<char> {
    seq!['z']
}

/// `"did:key:"`, as characters.
pub open spec fn did_key_prefix() -> Seq<char> {
    seq!['d', 'i', 'd', ':', 'k', 'e', 'y', ':']
}

/// The two-byte multicodec tag of a family.
pub open spec fn family_tag(alg: JwtAlg) -> Seq<u8> {
    match alg {
        JwtAlg::P256 => seq![0x80u8, 0x24u8],
        JwtAlg::Secp256k1 => seq![0xe7u8, 0x01u8],
    }
}

/// The family whose multicodec tag opens `bytes`, if any.
pub open spec fn family_of_tag(bytes: Seq<u8>) -> Option<JwtAlg> {
    if bytes.len() < 2 {
        None
    } else if bytes[0] == 0x80 && bytes[1] == 0x24 {
        Some(JwtAlg::P256)
    } else if bytes[0] == 0xe7 && bytes[1] == 0x01 {
        Some(JwtAlg::Secp256k1)
    } else {
        None
    }
}

} // verus!

verus! {

/// The multibase marker of base58-btc.
pub fn base58_multibase_prefix() -> (r: &'static str)
    ensures
        r@ == multibase_prefix(),
{
    proof {
        reveal_strlit("z");
    }
    let r = "z";
    assert(r@ =~= multibase_prefix());
    r
}

/// The textual prefix of every `did:key` identifier.
pub fn did_key_prefix_str() -> (r: &'static str)
    ensures
        r@ == did_key_prefix(),
{
    proof {
        reveal_strlit("did:key:");
    }
    let r = "did:key:";
    assert(r@ =~= did_key_prefix());
    r
}

} // verus!
