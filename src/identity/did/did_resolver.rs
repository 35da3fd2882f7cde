//! The decisions of DID resolution: which method serves a DID, when no
//! network is needed, and what a fetched document yields.
use vstd::prelude::*;
use http::Error as HttpError;
use serde_json::Error as JsonError;
use crate::common_web::did_doc::{atproto_fragment, verification_material, DidDocument};
use crate::crypto::consts::{did_key_prefix, did_key_prefix_str};
use crate::identity::did::atproto_data::{self, did_key_outcome, ensure_atproto_key};
use crate::identity::did::plc_resolver::{plc_document_url, DidPlcResolver};
use crate::text::{starts_with, str_starts_with, strip_prefix};

verus! {

/// Why a DID could not be resolved.
#[derive(Debug)]
pub enum Error {
    DidNotFoundError(String),
    PoorlyFormattedDid(String),
    UnsupportedDidMethod(String),
    Http(HttpError),
    HttpClient(String),
    SerdeJson(JsonError),
    AtprotoData(atproto_data::Error),
}

/// `"did:"`, as characters.
pub open spec fn did_scheme() -> Seq<char> {
    seq!['d', 'i', 'd', ':']
}

/// `"plc"`, as characters.
pub open spec fn plc_method() -> Seq<char> {
    seq!['p', 'l', 'c']
}

/// The method of `did` is `method`: the text between the first and the second
/// `:` (or the end) is `method`.
pub open spec fn has_method(did: Seq<char>, method: Seq<char>) -> bool {
    let rest = did.skip(did_scheme().len() as int);
    &&& starts_with(did, did_scheme())
    &&& starts_with(rest, method)
    &&& (rest.len() == method.len() || rest[method.len() as int] == ':')
}

/// The next step of finding the atproto key of a DID.
#[derive(Debug)]
pub enum KeyStep {
    /// The key is known without any request.
    Key(String),
    /// The DID document must be fetched with one GET of this URL.
    Fetch(String),
}

/// Resolves DIDs by method; `did:plc` is served by a PLC directory.
pub struct DidResolver<T> {
    plc: DidPlcResolver<T>,
}

impl<T> DidResolver<T> {
    /// The PLC resolver that serves `did:plc`.
    pub closed spec fn spec_plc(&self) -> DidPlcResolver<T> {
        self.plc
    }

    pub fn new(client: T, plc_url: &str) -> (r: Self)
        ensures
            r.spec_plc().spec_plc_url() == plc_url@,
            r.spec_plc().spec_client() == client,
    {
        DidResolver { plc: DidPlcResolver::new(client, plc_url) }
    }

    /// The PLC resolver that serves `did:plc`.
    pub fn plc(&self) -> (r: &DidPlcResolver<T>)
        ensures
            *r == self.spec_plc(),
    {
        &self.plc
    }

    /// Where the document of `did` is fetched from: the PLC directory for
    /// `did:plc`; every other method is refused.
    pub fn resolve_no_check(&self, did: &str) -> (r: Result<String, Error>)
        ensures
            !starts_with(did@, did_scheme()) ==> (r matches Err(Error::PoorlyFormattedDid(d))
                && d@ == did@),
            starts_with(did@, did_scheme()) && has_method(did@, plc_method()) ==> (r matches Ok(
                u,
            ) && u@ == plc_document_url(self.spec_plc().spec_plc_url(), did@)),
            starts_with(did@, did_scheme()) && !has_method(did@, plc_method()) ==> (r matches Err(
                Error::UnsupportedDidMethod(d),
            ) && d@ == did@),
    {
        proof {
            reveal_strlit("did:");
            reveal_strlit("plc");
        }
        let scheme = "did:";
        assert(scheme@ =~= did_scheme());
        let rest = match strip_prefix(did, scheme) {
            Some(rest) => rest,
            None => return Err(Error::PoorlyFormattedDid(String::from_str(did))),
        };
        let method = "plc";
        assert(method@ =~= plc_method());
        let is_plc = str_starts_with(rest, method) && (rest.unicode_len() == 3 || rest.get_char(3)
            == ':');
        if is_plc {
            Ok(self.plc.request_uri(did))
        } else {
            Err(Error::UnsupportedDidMethod(String::from_str(did)))
        }
    }

    /// The first step of finding the atproto key of `did`: a `did:key` is its
    /// own key and needs no request; any other DID needs its document, from
    /// the URL that `resolve_no_check` gives. `force_refresh` asks for a fresh
    /// document; no document is kept between calls, so every fetch is fresh.
    pub fn atproto_key_step(&self, did: &str, force_refresh: bool) -> (r: Result<KeyStep, Error>)
        ensures
            starts_with(did@, did_key_prefix()) ==> (r matches Ok(KeyStep::Key(k)) && k@ == did@),
            !starts_with(did@, did_key_prefix()) ==> {
                &&& !starts_with(did@, did_scheme()) ==> (r matches Err(
                    Error::PoorlyFormattedDid(d),
                ) && d@ == did@)
                &&& starts_with(did@, did_scheme()) && has_method(did@, plc_method()) ==> (r matches Ok(
                    KeyStep::Fetch(u),
                ) && u@ == plc_document_url(self.spec_plc().spec_plc_url(), did@))
                &&& starts_with(did@, did_scheme()) && !has_method(did@, plc_method()) ==> (r matches Err(
                    Error::UnsupportedDidMethod(d),
                ) && d@ == did@)
            },
    {
        if str_starts_with(did, did_key_prefix_str()) {
            return Ok(KeyStep::Key(String::from_str(did)));
        }
        match self.resolve_no_check(did) {
            Ok(uri) => Ok(KeyStep::Fetch(uri)),
            Err(e) => Err(e),
        }
    }
}

/// The document that resolution yielded, or `DidNotFoundError` where it
/// yielded none.
pub fn ensure_resolve(did: &str, resolved: Option<DidDocument>) -> (r: Result<DidDocument, Error>)
    ensures
        resolved matches Some(doc) ==> (r matches Ok(d) && d == doc),
        resolved is None ==> (r matches Err(Error::DidNotFoundError(d)) && d@ == did@),
{
    match resolved {
        Some(doc) => Ok(doc),
        None => Err(Error::DidNotFoundError(String::from_str(did))),
    }
}

/// How finding the atproto key of `did` ends, given the document that
/// resolution yielded.
pub open spec fn document_key_outcome(
    did: Seq<char>,
    resolved: Option<DidDocument>,
    r: Result<String, Error>,
) -> bool {
    match resolved {
        None => r matches Err(Error::DidNotFoundError(d)) && d@ == did,
        Some(doc) => match verification_material(doc, atproto_fragment()) {
            None => r matches Err(Error::AtprotoData(atproto_data::Error::SigningKeyNotFound(_))),
            Some((ty, mb)) => match r {
                Ok(s) => did_key_outcome(ty, mb, Ok(s)),
                Err(Error::AtprotoData(e)) => did_key_outcome(ty, mb, Err(e)),
                Err(_) => false,
            },
        },
    }
}

/// The last step of finding the atproto key of `did`: its key from the
/// document that resolution yielded.
pub fn atproto_key_from_document(did: &str, resolved: Option<DidDocument>) -> (r: Result<
    String,
    Error,
>)
    ensures
        document_key_outcome(did@, resolved, r),
{
    let doc = match ensure_resolve(did, resolved) {
        Ok(doc) => doc,
        Err(e) => return Err(e),
    };
    match ensure_atproto_key(&doc) {
        Ok(s) => Ok(s),
        Err(e) => Err(Error::AtprotoData(e)),
    }
}

} // verus!
