//! DID documents and the lookups made on them.
use vstd::prelude::*;
use crate::text::{concat, starts_with, str_eq, strip_prefix};

verus! {

/// A resolved DID document.
#[derive(Debug, Clone, PartialEq, Eq)]
pub struct DidDocument {
    pub context: Option<Vec<String>>,
    pub id: String,
    pub also_known_as: Option<Vec<String>>,
    pub verification_method: Option<Vec<VerificationMethod>>,
    pub service: Option<Vec<Service>>,
}

/// A public key that a DID document lists.
#[derive(Debug, Clone, PartialEq, Eq)]
pub struct VerificationMethod {
    pub id: String,
    pub type_: String,
    pub controller: String,
    pub public_key_multibase: Option<String>,
}

/// A service endpoint that a DID document lists.
#[derive(Debug, Clone, PartialEq, Eq)]
pub struct Service {
    pub id: String,
    pub type_: String,
    pub service_endpoint: String,
}

/// `"at://"`, as characters.
pub open spec fn at_uri_prefix() -> Seq<char> {
    seq!['a', 't', ':', '/', '/']
}

/// The handle in a list of aliases: the first alias that is an `at://` URI,
/// without that prefix.
pub open spec fn handle_in(aka: Seq<String>) -> Option<Seq<char>>
    decreases aka.len(),
{
    if aka.len() == 0 {
        None
    } else if starts_with(aka[0]@, at_uri_prefix()) {
        Some(aka[0]@.skip(at_uri_prefix().len() as int))
    } else {
        handle_in(aka.drop_first())
    }
}

/// `id` names the entry `fragment` of the document `did`: either as the bare
/// `#fragment` or as `did#fragment`.
pub open spec fn names_key(id: Seq<char>, did: Seq<char>, fragment: Seq<char>) -> bool {
    id == seq!['#'] + fragment || id == did + seq!['#'] + fragment
}

/// The first verification method that `names_key` picks.
pub open spec fn first_method(
    vms: Seq<VerificationMethod>,
    did: Seq<char>,
    fragment: Seq<char>,
) -> Option<VerificationMethod>
    decreases vms.len(),
{
    if vms.len() == 0 {
        None
    } else if names_key(vms[0].id@, did, fragment) {
        Some(vms[0])
    } else {
        first_method(vms.drop_first(), did, fragment)
    }
}

/// The type and multibase key of the verification method `fragment` of a
/// document: the first method whose id names it, where that method carries a
/// multibase key.
pub open spec fn verification_material(doc: DidDocument, fragment: Seq<char>) -> Option<
    (Seq<char>, Seq<char>),
> {
    match doc.verification_method {
        None => None,
        Some(vms) => match first_method(vms@, doc.id@, fragment) {
            Some(vm) => match vm.public_key_multibase {
                Some(mb) => Some((vm.type_@, mb@)),
                None => None,
            },
            None => None,
        },
    }
}

/// `"atproto"`, as characters.
pub open spec fn atproto_fragment() -> Seq<char> {
    seq!['a', 't', 'p', 'r', 'o', 't', 'o']
}

/// The first service whose id is `id` or the document's DID followed by `id`.
pub open spec fn first_service(svcs: Seq<Service>, did: Seq<char>, id: Seq<char>) -> Option<Service>
    decreases svcs.len(),
{
    if svcs.len() == 0 {
        None
    } else if svcs[0].id@ == id || svcs[0].id@ == did + id {
        Some(svcs[0])
    } else {
        first_service(svcs.drop_first(), did, id)
    }
}

/// The endpoint of the service `id` of a document: the first service with
/// that id, where its type is `ty` (or no type is asked for).
pub open spec fn service_endpoint(doc: DidDocument, id: Seq<char>, ty: Option<Seq<char>>) -> Option<
    Seq<char>,
> {
    match doc.service {
        None => None,
        Some(svcs) => match first_service(svcs@, doc.id@, id) {
            Some(svc) => if ty is None || svc.type_@ == ty->0 {
                Some(svc.service_endpoint@)
            } else {
                None
            },
            None => None,
        },
    }
}

/// The characters of a pair of strings.
pub open spec fn pair_view(p: Option<(String, String)>) -> Option<(Seq<char>, Seq<char>)> {
    match p {
        Some((a, b)) => Some((a@, b@)),
        None => None,
    }
}

/// The characters of an optional string.
pub open spec fn opt_view(s: Option<String>) -> Option<Seq<char>> {
    match s {
        Some(x) => Some(x@),
        None => None,
    }
}

impl DidDocument {
    /// The document of a feed-generator service: the DID `did`, the W3C DID
    /// context, and one `#bsky_fg` service of type `BskyFeedGenerator` at
    /// `endpoint`.
    pub fn feed_generator(did: &str, endpoint: &str) -> (r: DidDocument)
        ensures
            r.id@ == did@,
            r.context matches Some(c) && c@.len() == 1 && c@[0]@ == "https://www.w3.org/ns/did/v1"@,
            r.also_known_as is None,
            r.verification_method is None,
            r.service matches Some(s) && s@.len() == 1 && s@[0].id@ == "#bsky_fg"@ && s@[0].type_@
                == "BskyFeedGenerator"@ && s@[0].service_endpoint@ == endpoint@,
    {
        DidDocument {
            context: Some(vec![String::from_str("https://www.w3.org/ns/did/v1")]),
            id: String::from_str(did),
            also_known_as: None,
            verification_method: None,
            service: Some(
                vec![
                    Service {
                        id: String::from_str("#bsky_fg"),
                        type_: String::from_str("BskyFeedGenerator"),
                        service_endpoint: String::from_str(endpoint),
                    },
                ],
            ),
        }
    }

    /// The DID that the document describes.
    pub fn get_did(&self) -> (r: String)
        ensures
            r@ == self.id@,
    {
        self.id.clone()
    }

    /// The handle: the first `at://` alias, without its prefix.
    pub fn get_handle(&self) -> (r: Option<String>)
        ensures
            opt_view(r) == match self.also_known_as {
                Some(aka) => handle_in(aka@),
                None => None,
            },
    {
        proof {
            reveal_strlit("at://");
        }
        match &self.also_known_as {
            None => None,
            Some(aka) => {
                let prefix = "at://";
                assert(prefix@ =~= at_uri_prefix());
                let mut i: usize = 0;
                assert(aka@.skip(0) =~= aka@);
                while i < aka.len()
                    invariant
                        i <= aka@.len(),
                        self.also_known_as == Some(*aka),
                        prefix@ == at_uri_prefix(),
                        handle_in(aka@) == handle_in(aka@.skip(i as int)),
                    decreases aka.len() - i,
                {
                    assert(aka@.skip(i as int).drop_first() =~= aka@.skip(i as int + 1));
                    assert(aka@.skip(i as int)[0] == aka@[i as int]);
                    if let Some(rest) = strip_prefix(aka[i].as_str(), prefix) {
                        assert(handle_in(aka@.skip(i as int)) == Some(rest@));
                        return Some(String::from_str(rest));
                    }
                    i = i + 1;
                }
                assert(aka@.skip(i as int) =~= Seq::<String>::empty());
                None
            },
        }
    }

    /// The type and multibase key of the `#atproto` verification method.
    pub fn get_signing_key(&self) -> (r: Option<(String, String)>)
        ensures
            pair_view(r) == verification_material(*self, atproto_fragment()),
    {
        proof {
            reveal_strlit("atproto");
        }
        let fragment = "atproto";
        assert(fragment@ =~= atproto_fragment());
        self.get_verification_material(fragment)
    }

    /// The type and multibase key of the verification method `key_id`.
    pub fn get_verification_material(&self, key_id: &str) -> (r: Option<(String, String)>)
        ensures
            pair_view(r) == verification_material(*self, key_id@),
    {
        proof {
            reveal_strlit("#");
        }
        let did = self.get_did();
        match &self.verification_method {
            None => None,
            Some(vms) => {
                let short_id = concat("#", key_id);
                let did_hash = concat(did.as_str(), "#");
                let long_id = concat(did_hash.as_str(), key_id);
                assert(short_id@ =~= seq!['#'] + key_id@);
                let mut i: usize = 0;
                assert(vms@.skip(0) =~= vms@);
                while i < vms.len()
                    invariant
                        i <= vms@.len(),
                        self.verification_method == Some(*vms),
                        short_id@ == seq!['#'] + key_id@,
                        long_id@ == did@ + seq!['#'] + key_id@,
                        did@ == self.id@,
                        first_method(vms@, self.id@, key_id@) == first_method(
                            vms@.skip(i as int),
                            self.id@,
                            key_id@,
                        ),
                    decreases vms.len() - i,
                {
                    assert(vms@.skip(i as int).drop_first() =~= vms@.skip(i as int + 1));
                    assert(vms@.skip(i as int)[0] == vms@[i as int]);
                    let vm = &vms[i];
                    if str_eq(vm.id.as_str(), short_id.as_str()) || str_eq(
                        vm.id.as_str(),
                        long_id.as_str(),
                    ) {
                        return match &vm.public_key_multibase {
                            Some(mb) => Some((vm.type_.clone(), mb.clone())),
                            None => None,
                        };
                    }
                    i = i + 1;
                }
                assert(vms@.skip(i as int) =~= Seq::<VerificationMethod>::empty());
                None
            },
        }
    }

    /// The endpoint of the `#atproto_pds` service of type
    /// `AtprotoPersonalDataServer`.
    pub fn get_pds_endpoint(&self) -> (r: Option<String>)
        ensures
            opt_view(r) == service_endpoint(
                *self,
                "#atproto_pds"@,
                Some("AtprotoPersonalDataServer"@),
            ),
    {
        self.get_service_endpoint(("#atproto_pds", Some("AtprotoPersonalDataServer")))
    }

    /// The endpoint of the service `id`, where it has the type asked for.
    pub fn get_service_endpoint(&self, query: (&str, Option<&str>)) -> (r: Option<String>)
        ensures
            opt_view(r) == service_endpoint(
                *self,
                query.0@,
                match query.1 {
                    Some(t) => Some(t@),
                    None => None,
                },
            ),
    {
        let (id, ty) = query;
        match &self.service {
            None => None,
            Some(svcs) => {
                let did = self.get_did();
                let long_id = concat(did.as_str(), id);
                let mut i: usize = 0;
                assert(svcs@.skip(0) =~= svcs@);
                while i < svcs.len()
                    invariant
                        i <= svcs@.len(),
                        self.service == Some(*svcs),
                        id == query.0,
                        ty == query.1,
                        long_id@ == self.id@ + id@,
                        first_service(svcs@, self.id@, id@) == first_service(
                            svcs@.skip(i as int),
                            self.id@,
                            id@,
                        ),
                    decreases svcs.len() - i,
                {
                    assert(svcs@.skip(i as int).drop_first() =~= svcs@.skip(i as int + 1));
                    assert(svcs@.skip(i as int)[0] == svcs@[i as int]);
                    let svc = &svcs[i];
                    if str_eq(svc.id.as_str(), id) || str_eq(svc.id.as_str(), long_id.as_str()) {
                        let type_ok = match ty {
                            None => true,
                            Some(t) => str_eq(svc.type_.as_str(), t),
                        };
                        return if type_ok {
                            Some(svc.service_endpoint.clone())
                        } else {
                            None
                        };
                    }
                    i = i + 1;
                }
                assert(svcs@.skip(i as int) =~= Seq::<Service>::empty());
                None
            },
        }
    }
}

} // verus!
