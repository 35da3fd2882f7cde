//! Resolution of `did:plc` identifiers through a PLC directory.
use vstd::prelude::*;
use crate::identity::did::did_resolver::Error;
use crate::text::concat;

verus! {

/// Resolves `did:plc` DIDs with one GET to `<plc_url>/<did>`.
pub struct DidPlcResolver<T> {
    client: T,
    plc_url: String,
}

/// The URL of the document of `did` in the directory at `plc_url`.
pub open spec fn plc_document_url(plc_url: Seq<char>, did: Seq<char>) -> Seq<char> {
    plc_url + seq!['/'] + did
}

/// A status code of the 2xx class.
pub open spec fn is_success_status(status: u16) -> bool {
    200 <= status < 300
}

impl<T> DidPlcResolver<T> {
    /// The base URL of the directory.
    pub closed spec fn spec_plc_url(&self) -> Seq<char> {
        self.plc_url@
    }

    /// The HTTP client that fetches from the directory.
    pub closed spec fn spec_client(&self) -> T {
        self.client
    }

    pub fn new(client: T, plc_url: &str) -> (r: Self)
        ensures
            r.spec_plc_url() == plc_url@,
            r.spec_client() == client,
    {
        DidPlcResolver { client, plc_url: String::from_str(plc_url) }
    }

    /// The client to send the directory request with.
    pub fn client(&self) -> (r: &T)
        ensures
            *r == self.spec_client(),
    {
        &self.client
    }

    /// The URL of the single GET that resolves `did`.
    pub fn request_uri(&self, did: &str) -> (r: String)
        ensures
            r@ == plc_document_url(self.spec_plc_url(), did@),
    {
        proof {
            reveal_strlit("/");
        }
        let base = concat(self.plc_url.as_str(), "/");
        assert(base@ =~= self.plc_url@ + seq!['/']);
        concat(base.as_str(), did)
    }

    /// What the directory's answer yields: the body on a 2xx status, and no
    /// document on any other status.
    pub fn response_body(status: u16, body: Vec<u8>) -> (r: Option<Vec<u8>>)
        ensures
            is_success_status(status) ==> r == Some(body),
            !is_success_status(status) ==> r is None,
    {
        if 200 <= status && status < 300 {
            Some(body)
        } else {
            None
        }
    }

    /// What the single GET to the directory yields, given what the transport
    /// returned: its status and body, or the message of a transport failure.
    /// A 2xx answer gives the body, any other status gives no document, and
    /// only a transport failure is an error.
    pub fn resolve_no_check(response: Result<(u16, Vec<u8>), String>) -> (r: Result<
        Option<Vec<u8>>,
        Error,
    >)
        ensures
            response matches Ok((status, body)) ==> r == Ok::<Option<Vec<u8>>, Error>(
                if is_success_status(status) {
                    Some(body)
                } else {
                    None
                },
            ),
            response matches Err(m) ==> (r matches Err(Error::HttpClient(e)) && e == m),
    {
        match response {
            Ok((status, body)) => Ok(Self::response_body(status, body)),
            Err(m) => Err(Error::HttpClient(m)),
        }
    }
}

} // verus!
