//! DID resolution and the atproto data read from DID documents.

pub mod atproto_data;
pub mod did_resolver;
pub mod plc_resolver;
