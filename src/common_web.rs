//! Data shared with the web-facing side of the service.

pub mod did_doc;
