//! The HTTP client of the service: requests go to a fixed base URI.
use vstd::prelude::*;

verus! {

/// An HTTP client bound to a base URI.
pub struct FetchClient {
    base_uri: String,
}

impl FetchClient {
    /// The base URI of the client.
    pub closed spec fn spec_base_uri(&self) -> Seq<char> {
        self.base_uri@
    }

    pub fn new(base_uri: &str) -> (r: Self)
        ensures
            r.spec_base_uri() == base_uri@,
    {
        FetchClient { base_uri: String::from_str(base_uri) }
    }

    /// The base URI of the client.
    pub fn base_uri(&self) -> (r: String)
        ensures
            r@ == self.spec_base_uri(),
    {
        self.base_uri.clone()
    }
}

} // verus!
