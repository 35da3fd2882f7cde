//! Bearer-token authentication for services whose callers are identified by
//! DIDs: the `did:key` multikey codec, per-curve signature checks, DID document
//! accessors, DID resolution decisions and token verification.

pub mod auth;
pub mod client;
pub mod common_web;
pub mod crypto;
pub mod identity;
pub mod outside;
pub mod text;
