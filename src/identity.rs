//! Identity: DIDs, their documents and their keys.

pub mod did;
