//! Where the log of a `did:webvh` DID is found.

use vstd::prelude::*;

use crate::document::Document;
use crate::error::Error;
use crate::identifier::{
    build_url, identifier_from, is_identifier, is_identifier_char, url_for,
};
use crate::resolve::{ContentType, DidParts, DidResolver, Metadata, Options, Resolved};
use crate::text::{chars_of, find_char, slice_of, starts_with, string_of};
use crate::webvh::DidWebVh;
use crate::Method;

verus! {

/// What follows the first occurrence of `c` in `s`; all of `s` where `c`
/// does not occur.
pub open spec fn after_first(s: Seq<char>, c: char) -> Seq<char>
    decreases s.len(),
{
    if s.len() == 0 {
        s
    } else if s[0] == c {
        s.skip(1)
    } else {
        after_first(s.skip(1), c)
    }
}

/// Where `c` first occurs in `s` at position `i`, what follows it is what
/// follows position `i`.
proof fn lemma_after_first(s: Seq<char>, c: char, i: int)
    requires
        0 <= i < s.len(),
        s[i] == c,
        !s.take(i).contains(c),
    ensures
        after_first(s, c) == s.skip(i + 1),
    decreases i,
{
    if i == 0 {
    } else {
        assert(s.take(i)[0] == s[0]);
        assert(s[0] != c);
        let t = s.skip(1);
        let head = t.take(i - 1);
        assert forall|k: int| 0 <= k < head.len() implies #[trigger] head[k] != c by {
            assert(s.take(i)[k + 1] == head[k]);
        }
        lemma_after_first(t, c, i - 1);
        assert(t.skip(i) =~= s.skip(i + 1));
    }
}

impl DidWebVh {
    /// What every `did:webvh` DID begins with.
    pub open spec fn prefix() -> Seq<char> {
        "did:webvh:"@
    }

    /// The part of `did` behind the prefix: the SCID, a colon, and the
    /// identifier of the place.
    pub open spec fn method_specific_id(did: Seq<char>) -> Seq<char> {
        did.skip(Self::prefix().len() as int)
    }

    /// Whether `did` has the form of a `did:webvh` DID: the prefix, then a
    /// method-specific identifier.
    pub open spec fn is_well_formed(did: Seq<char>) -> bool {
        &&& Self::prefix().is_prefix_of(did)
        &&& is_identifier(Self::method_specific_id(did))
    }

    /// Whether `did` is a `did:webvh` DID: well formed, with a colon that
    /// ends the SCID, and behind that colon an identifier of the place, which
    /// is not empty.
    pub open spec fn is_valid(did: Seq<char>) -> bool {
        &&& Self::is_well_formed(did)
        &&& Self::method_specific_id(did).contains(':')
        &&& is_identifier(Self::identifier(did))
    }

    /// The identifier of the place: what follows the SCID and its colon.
    pub open spec fn identifier(did: Seq<char>) -> Seq<char> {
        after_first(Self::method_specific_id(did), ':')
    }

    /// The HTTPS location of the log of a valid `did`: the file `did.jsonl`
    /// at the place that the identifier names. The SCID is no part of it.
    pub open spec fn url_of(did: Seq<char>) -> Seq<char> {
        url_for(Self::identifier(did), "/did.jsonl"@)
    }

    /// Converts a `did:webvh` DID to the HTTPS URL of its log.
    ///
    /// Fails with `InvalidDid` exactly when `did` is not a `did:webvh` DID;
    /// the message tells a DID without an SCID from one that is not well
    /// formed or names no place.
    pub fn url(did: &str) -> (r: Result<String, Error>)
        ensures
            match r {
                Ok(u) => Self::is_valid(did@) && u@ == Self::url_of(did@),
                Err(e) => !Self::is_valid(did@) && e is InvalidDid && e.detail()
                    == Self::invalid_detail(did@),
            },
    {
        let chars = chars_of(did);
        let prefix = chars_of("did:webvh:");
        if !starts_with(&chars, &prefix) || !identifier_from(&chars, prefix.len()) {
            return Err(Error::InvalidDid("DID is not a valid did:webvh".to_owned()));
        }
        let rest = slice_of(&chars, prefix.len(), chars.len());
        assert(rest@ == Self::method_specific_id(did@));
        match find_char(&rest, ':') {
            None => Err(Error::InvalidDid("DID is not a valid did:webvh - no SCID".to_owned())),
            Some(colon) => {
                let id = slice_of(&rest, colon + 1, rest.len());
                proof {
                    lemma_after_first(rest@, ':', colon as int);
                    assert forall|k: int| 0 <= k < id@.len() implies is_identifier_char(
                        #[trigger] id@[k],
                    ) by {
                        assert(id@[k] == rest@[colon + 1 + k]);
                    }
                }
                if id.len() == 0 {
                    return Err(Error::InvalidDid("DID is not a valid did:webvh".to_owned()));
                }
                Ok(build_url(&id, "/did.jsonl"))
            },
        }
    }

    /// The pattern that a `did:webvh` DID is held against, as resolution
    /// metadata report it.
    pub open spec fn pattern() -> Seq<char> {
        "^did:webvh:(?<identifier>[a-zA-Z0-9.\\-:\\%]+)$"@
    }

    /// Whether `options` accept the log of a `did:webvh` DID: they name no
    /// media type, or `text/jsonl`.
    pub open spec fn accepts(options: Option<Options>) -> bool {
        match options {
            Some(opts) => match opts.accept {
                Some(content_type) => content_type == ContentType::JsonL,
                None => true,
            },
            None => true,
        }
    }

    /// The message of the error that `url` reports for a `did` that is not
    /// valid.
    pub open spec fn invalid_detail(did: Seq<char>) -> Seq<char> {
        if Self::is_well_formed(did) && !Self::method_specific_id(did).contains(':') {
            "DID is not a valid did:webvh - no SCID"@
        } else {
            "DID is not a valid did:webvh"@
        }
    }

    /// The URL to fetch for resolving `did` under `options`.
    ///
    /// Fails with `InvalidDid` where `did` is not a `did:webvh` DID; else
    /// with `RepresentationNotSupported` where `options` do not accept the
    /// log.
    pub fn request(did: &str, options: Option<Options>) -> (r: Result<String, Error>)
        ensures
            match r {
                Ok(u) => Self::is_valid(did@) && Self::accepts(options) && u@ == Self::url_of(did@),
                Err(e) => if !Self::is_valid(did@) {
                    e is InvalidDid && e.detail() == Self::invalid_detail(did@)
                } else {
                    !Self::accepts(options) && e is RepresentationNotSupported && e.detail()
                        == "Content type must be text/json"@
                },
            },
    {
        let url = match Self::url(did) {
            Ok(url) => url,
            Err(e) => {
                return Err(e);
            },
        };
        if let Some(opts) = options {
            if let Some(content_type) = opts.accept {
                if content_type != ContentType::JsonL {
                    return Err(
                        Error::RepresentationNotSupported(
                            "Content type must be text/json".to_owned(),
                        ),
                    );
                }
            }
        }
        Ok(url)
    }

    /// The result of resolving `did` under `options`, once what is at its
    /// URL has been asked for and `fetched` is the answer.
    ///
    /// Fails as `request` does; else, where nothing was fetched, with `Other`
    /// and the message of the failure.
    pub fn resolved(did: &str, options: Option<Options>, fetched: Result<Document, Error>) -> (r:
        Result<Resolved, Error>)
        ensures
            match r {
                Ok(res) => Self::is_valid(did@) && Self::accepts(options) && fetched is Ok
                    && res.is_resolution_of(
                    did@,
                    Method::WebVh,
                    Self::pattern(),
                    Self::prefix().len() as int,
                    fetched->Ok_0,
                ),
                Err(e) => if !Self::is_valid(did@) {
                    e is InvalidDid && e.detail() == Self::invalid_detail(did@)
                } else if !Self::accepts(options) {
                    e is RepresentationNotSupported && e.detail()
                        == "Content type must be text/json"@
                } else {
                    fetched is Err && e is Other && e.detail() == fetched->Err_0.detail()
                },
            },
    {
        match Self::request(did, options) {
            Ok(_) => {},
            Err(e) => {
                return Err(e);
            },
        }
        let document = match fetched {
            Ok(document) => document,
            Err(e) => {
                return Err(Error::Other(e.message()));
            },
        };
        let chars = chars_of(did);
        let prefix = chars_of("did:webvh:");
        let id = slice_of(&chars, prefix.len(), chars.len());
        Ok(
            Resolved {
                context: "https://w3id.org/did-resolution/v1".to_owned(),
                metadata: Metadata {
                    content_type: ContentType::DidLdJson,
                    pattern: Some("^did:webvh:(?<identifier>[a-zA-Z0-9.\\-:\\%]+)$".to_owned()),
                    did: Some(
                        DidParts {
                            did_string: did.to_owned(),
                            method_specific_id: string_of(&id),
                            method: Method::WebVh,
                        },
                    ),
                },
                document: Some(document),
                document_metadata: None,
            },
        )
    }

    /// Resolves a `did:webvh` DID, whose log `resolver` fetches from the
    /// DID's URL.
    ///
    /// Fails as `request` does, without asking `resolver`; else with `Other`
    /// where `resolver` fails.
    pub fn resolve<R: DidResolver>(did: &str, options: Option<Options>, resolver: &R) -> (r:
        Result<Resolved, Error>)
        ensures
            match r {
                Ok(res) => Self::is_valid(did@) && Self::accepts(options) && exists|doc: Document|
                    res.is_resolution_of(
                        did@,
                        Method::WebVh,
                        Self::pattern(),
                        Self::prefix().len() as int,
                        doc,
                    ),
                Err(e) => if !Self::is_valid(did@) {
                    e is InvalidDid && e.detail() == Self::invalid_detail(did@)
                } else if !Self::accepts(options) {
                    e is RepresentationNotSupported && e.detail()
                        == "Content type must be text/json"@
                } else {
                    e is Other
                },
            },
    {
        let url = match Self::request(did, options) {
            Ok(url) => url,
            Err(e) => {
                return Err(e);
            },
        };
        let fetched = resolver.resolve(url.as_str());
        Self::resolved(did, options, fetched)
    }
}

} // verus!
