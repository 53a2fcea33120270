//! Where the DID document of a `did:web` DID is found.

use vstd::prelude::*;

use crate::document::Document;
use crate::error::Error;
use crate::identifier::{build_url, identifier_from, is_identifier, url_for};
use crate::resolve::{ContentType, DidParts, DidResolver, Metadata, Options, Resolved};
use crate::text::{chars_of, slice_of, starts_with, string_of};
use crate::web::DidWeb;
use crate::Method;

verus! {

impl DidWeb {
    /// What every `did:web` DID begins with.
    pub open spec fn prefix() -> Seq<char> {
        "did:web:"@
    }

    /// The part of `did` behind the prefix.
    pub open spec fn identifier(did: Seq<char>) -> Seq<char> {
        did.skip(Self::prefix().len() as int)
    }

    /// Whether `did` is a `did:web` DID: the prefix, then a method-specific
    /// identifier.
    pub open spec fn is_valid(did: Seq<char>) -> bool {
        &&& Self::prefix().is_prefix_of(did)
        &&& is_identifier(Self::identifier(did))
    }

    /// The HTTPS location of the DID document of a valid `did`: the file
    /// `did.json` at the place that the identifier names.
    pub open spec fn url_of(did: Seq<char>) -> Seq<char> {
        url_for(Self::identifier(did), "/did.json"@)
    }

    /// Converts a `did:web` DID to the HTTPS URL of its DID document.
    ///
    /// Fails with `InvalidDid` exactly when `did` is not a `did:web` DID.
    pub fn url(did: &str) -> (r: Result<String, Error>)
        ensures
            match r {
                Ok(u) => Self::is_valid(did@) && u@ == Self::url_of(did@),
                Err(e) => !Self::is_valid(did@) && e is InvalidDid && e.detail()
                    == "DID is not a valid did:web"@,
            },
    {
        let chars = chars_of(did);
        let prefix = chars_of("did:web:");
        if !starts_with(&chars, &prefix) || !identifier_from(&chars, prefix.len()) {
            return Err(Error::InvalidDid("DID is not a valid did:web".to_owned()));
        }
        let id = slice_of(&chars, prefix.len(), chars.len());
        assert(id@ == Self::identifier(did@));

        Ok(build_url(&id, "/did.json"))
    }

    /// The pattern that a `did:web` DID is held against, as resolution
    /// metadata report it.
    pub open spec fn pattern() -> Seq<char> {
        "^did:web:(?<identifier>[a-zA-Z0-9.\\-:\\%]+)$"@
    }

    /// The result of resolving `did`, once the document at its URL has been
    /// asked for and `fetched` is the answer.
    ///
    /// Fails with `InvalidDid` where `did` is not a `did:web` DID; else, where
    /// no document was fetched, with `Other` and the message of the failure.
    pub fn resolved(did: &str, fetched: Result<Document, Error>) -> (r: Result<Resolved, Error>)
        ensures
            match r {
                Ok(res) => Self::is_valid(did@) && fetched is Ok && res.is_resolution_of(
                    did@,
                    Method::Web,
                    Self::pattern(),
                    Self::prefix().len() as int,
                    fetched->Ok_0,
                ),
                Err(e) => if !Self::is_valid(did@) {
                    e is InvalidDid && e.detail() == "DID is not a valid did:web"@
                } else {
                    fetched is Err && e is Other && e.detail() == fetched->Err_0.detail()
                },
            },
    {
        let chars = chars_of(did);
        let prefix = chars_of("did:web:");
        if !starts_with(&chars, &prefix) || !identifier_from(&chars, prefix.len()) {
            return Err(Error::InvalidDid("DID is not a valid did:web".to_owned()));
        }
        let document = match fetched {
            Ok(document) => document,
            Err(e) => {
                return Err(Error::Other(e.message()));
            },
        };
        let id = slice_of(&chars, prefix.len(), chars.len());
        Ok(
            Resolved {
                context: "https://w3id.org/did-resolution/v1".to_owned(),
                metadata: Metadata {
                    content_type: ContentType::DidLdJson,
                    pattern: Some("^did:web:(?<identifier>[a-zA-Z0-9.\\-:\\%]+)$".to_owned()),
                    did: Some(
                        DidParts {
                            did_string: did.to_owned(),
                            method_specific_id: string_of(&id),
                            method: Method::Web,
                        },
                    ),
                },
                document: Some(document),
                document_metadata: None,
            },
        )
    }

    /// Resolves a `did:web` DID to its DID document, which `resolver`
    /// fetches from the DID's URL. `options` play no part.
    ///
    /// Fails with `InvalidDid`, without asking `resolver`, where `did` is not
    /// a `did:web` DID; else with `Other` where `resolver` fails.
    pub fn resolve<R: DidResolver>(did: &str, options: Option<Options>, resolver: &R) -> (r:
        Result<Resolved, Error>)
        ensures
            match r {
                Ok(res) => Self::is_valid(did@) && exists|doc: Document|
                    res.is_resolution_of(
                        did@,
                        Method::Web,
                        Self::pattern(),
                        Self::prefix().len() as int,
                        doc,
                    ),
                Err(e) => if !Self::is_valid(did@) {
                    e is InvalidDid && e.detail() == "DID is not a valid did:web"@
                } else {
                    e is Other
                },
            },
    {
        let url = match Self::url(did) {
            Ok(url) => url,
            Err(e) => {
                return Err(e);
            },
        };
        let fetched = resolver.resolve(url.as_str());
        Self::resolved(did, fetched)
    }
}

} // verus!
