//! DID resolution: what a resolver is asked, and what it answers.

use vstd::prelude::*;

use crate::document::Document;
use crate::error::Error;
use crate::Method;

verus! {

/// The context of every resolution result.
pub open spec fn resolution_context() -> Seq<char> {
    "https://w3id.org/did-resolution/v1"@
}

/// The media type of a resolved representation.
#[derive(Debug, Clone, Copy, PartialEq, Eq, Structural)]
pub enum ContentType {
    /// `application/did+json`
    DidJson,
    /// `application/did+ld+json`
    DidLdJson,
    /// `text/jsonl`
    JsonL,
}

impl ContentType {
    /// The media type's name.
    pub open spec fn name(self) -> Seq<char> {
        match self {
            ContentType::DidJson => "application/did+json"@,
            ContentType::DidLdJson => "application/did+ld+json"@,
            ContentType::JsonL => "text/jsonl"@,
        }
    }

    /// Renders the media type as its name.
    pub fn to_string(&self) -> (s: String)
        ensures
            s@ == self.name(),
    {
        match self {
            ContentType::DidJson => "application/did+json".to_owned(),
            ContentType::DidLdJson => "application/did+ld+json".to_owned(),
            ContentType::JsonL => "text/jsonl".to_owned(),
        }
    }
}

/// What the caller asks of a resolution.
#[derive(Debug, Clone, Copy, PartialEq, Eq, Structural)]
pub struct Options {
    /// The media type that the caller accepts; any, where `None`.
    pub accept: Option<ContentType>,
}

/// The parts of a resolved DID.
#[derive(Debug, Clone, PartialEq, Eq)]
pub struct DidParts {
    /// The whole DID.
    pub did_string: String,
    /// What follows the method's name and its colon.
    pub method_specific_id: String,
    /// The DID's method.
    pub method: Method,
}

/// What a resolution says of itself.
#[derive(Debug, Clone, PartialEq, Eq)]
pub struct Metadata {
    /// The media type of the returned document.
    pub content_type: ContentType,
    /// The pattern that the DID was held against.
    pub pattern: Option<String>,
    /// The parts of the DID.
    pub did: Option<DidParts>,
}

/// What is known of a document's place in its history.
#[derive(Debug, Clone, PartialEq, Eq)]
pub struct DocumentMetadata {
    /// The version of the document.
    pub version_id: String,
    /// When the version was made.
    pub version_time: String,
    /// Whether the DID has been deactivated.
    pub deactivated: bool,
    /// When the next version is expected.
    pub next_update: Option<String>,
}

/// The result of resolving a DID.
#[derive(Debug, Clone, PartialEq, Eq)]
pub struct Resolved {
    /// The context, which is always the resolution context.
    pub context: String,
    /// What the resolution says of itself.
    pub metadata: Metadata,
    /// The DID document.
    pub document: Option<Document>,
    /// What is known of the document's place in its history.
    pub document_metadata: Option<DocumentMetadata>,
}

impl Resolved {
    /// Whether this is the result of resolving the DID `did` of method
    /// `method` to `document`, where `pattern` is what the DID was held
    /// against and `prefix_len` the length of `did:`, the method's name and
    /// its colon.
    pub open spec fn is_resolution_of(
        self,
        did: Seq<char>,
        method: Method,
        pattern: Seq<char>,
        prefix_len: int,
        document: Document,
    ) -> bool {
        &&& self.context@ == resolution_context()
        &&& self.metadata.content_type == ContentType::DidLdJson
        &&& self.metadata.pattern matches Some(p) && p@ == pattern
        &&& self.metadata.did matches Some(parts) && parts.did_string@ == did
            && parts.method_specific_id@ == did.skip(prefix_len) && parts.method == method
        &&& self.document == Some(document)
        &&& self.document_metadata is None
    }
}

/// Fetches DID documents. An implementation may dereference the URL, look
/// the document up in a cache, or ask another resolver.
pub trait DidResolver {
    /// The DID document found at `url`, or why none was found.
    fn resolve(&self, url: &str) -> Result<Document, Error>;
}

/// Provides the material that DID document operations need.
pub trait DidOperator {
    /// The verification key to use for `purpose`, if there is one.
    fn verification(&self, purpose: crate::KeyPurpose) -> Option<crate::jwk::PublicKeyJwk>;
}

} // verus!
