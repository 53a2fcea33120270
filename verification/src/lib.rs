//! Decentralized identifier (DID) utilities for the `did:key`, `did:web` and
//! `did:webvh` methods.

use vstd::prelude::*;

pub mod document;
pub mod ed25519;
pub mod encoding;
pub mod error;
pub mod hash;
pub mod identifier;
pub mod json;
pub mod jwk;
pub mod kms;
pub mod resolve;
pub mod signer;
pub mod text;
pub mod web;
pub mod webvh;

pub use crate::error::Error;
pub use crate::resolve::{DidOperator, DidResolver};
pub use crate::signer::SignerExt;
use crate::text::str_eq;
pub use crate::web::DidWeb;
pub use crate::webvh::DidWebVh;

verus! {

/// Contexts that a DID document may name.
pub const BASE_CONTEXT: [&'static str; 3] = [
    "https://www.w3.org/ns/did/v1",
    "https://w3id.org/security/multikey/v1",
    "https://w3id.org/security/suites/jws-2020/v1",
];

/// DID methods supported by this crate.
#[derive(Debug, Clone, Copy, PartialEq, Eq, Structural)]
pub enum Method {
    /// `did:key`
    Key,
    /// `did:web`
    Web,
    /// `did:webvh`
    WebVh,
}

impl Default for Method {
    fn default() -> (m: Self)
        ensures
            m == Method::Key,
    {
        Method::Key
    }
}

impl Method {
    /// The method's name as it appears in a DID, after `did:`.
    pub open spec fn name(self) -> Seq<char> {
        match self {
            Method::Key => "key"@,
            Method::Web => "web"@,
            Method::WebVh => "webvh"@,
        }
    }

    /// The method that `s` names, if it names one.
    pub open spec fn named(s: Seq<char>) -> Option<Method> {
        if s == "key"@ {
            Some(Method::Key)
        } else if s == "web"@ {
            Some(Method::Web)
        } else if s == "webvh"@ {
            Some(Method::WebVh)
        } else {
            None
        }
    }

    /// Parses a method name.
    ///
    /// Fails with `MethodNotSupported`, which carries `s`, exactly when `s`
    /// is none of `key`, `web` and `webvh`.
    pub fn from_str(s: &str) -> (r: Result<Method, Error>)
        ensures
            match r {
                Ok(m) => Self::named(s@) == Some(m),
                Err(e) => Self::named(s@) is None && e is MethodNotSupported && e.detail() == s@,
            },
    {
        if str_eq(s, "key") {
            Ok(Method::Key)
        } else if str_eq(s, "web") {
            Ok(Method::Web)
        } else if str_eq(s, "webvh") {
            Ok(Method::WebVh)
        } else {
            Err(Error::MethodNotSupported(s.to_owned()))
        }
    }

    /// Renders the method as its name.
    pub fn to_string(&self) -> (s: String)
        ensures
            s@ == self.name(),
    {
        match self {
            Method::Key => "key".to_owned(),
            Method::Web => "web".to_owned(),
            Method::WebVh => "webvh".to_owned(),
        }
    }

    /// Parsing the name of a method gives that method back.
    pub proof fn lemma_name_round_trip(m: Method)
        ensures
            Self::named(m.name()) == Some(m),
    {
        reveal_strlit("key");
        reveal_strlit("web");
        reveal_strlit("webvh");
        assert("key"@.len() == 3 && "web"@.len() == 3 && "webvh"@.len() == 5);
        assert("key"@[0] == 'k' && "web"@[0] == 'w');
    }
}

/// The purpose key material will be used for.
#[derive(Debug, Clone, Copy, PartialEq, Eq, Hash, Structural)]
pub enum KeyPurpose {
    /// The document's `verificationMethod` field.
    VerificationMethod,
    /// The document's `authentication` field.
    Authentication,
    /// The document's `assertionMethod` field.
    AssertionMethod,
    /// The document's `keyAgreement` field.
    KeyAgreement,
    /// The document's `capabilityInvocation` field.
    CapabilityInvocation,
    /// The document's `capabilityDelegation` field.
    CapabilityDelegation,
}

impl KeyPurpose {
    /// The name of the document field that holds keys of this purpose.
    pub open spec fn name(self) -> Seq<char> {
        match self {
            KeyPurpose::VerificationMethod => "verificationMethod"@,
            KeyPurpose::Authentication => "authentication"@,
            KeyPurpose::AssertionMethod => "assertionMethod"@,
            KeyPurpose::KeyAgreement => "keyAgreement"@,
            KeyPurpose::CapabilityInvocation => "capabilityInvocation"@,
            KeyPurpose::CapabilityDelegation => "capabilityDelegation"@,
        }
    }

    /// The purpose that `s` names, if it names one.
    pub open spec fn named(s: Seq<char>) -> Option<KeyPurpose> {
        if s == "verificationMethod"@ {
            Some(KeyPurpose::VerificationMethod)
        } else if s == "authentication"@ {
            Some(KeyPurpose::Authentication)
        } else if s == "assertionMethod"@ {
            Some(KeyPurpose::AssertionMethod)
        } else if s == "keyAgreement"@ {
            Some(KeyPurpose::KeyAgreement)
        } else if s == "capabilityInvocation"@ {
            Some(KeyPurpose::CapabilityInvocation)
        } else if s == "capabilityDelegation"@ {
            Some(KeyPurpose::CapabilityDelegation)
        } else {
            None
        }
    }

    /// Parses the name of a key purpose.
    ///
    /// Fails with `Other` exactly when `s` names no purpose.
    pub fn from_str(s: &str) -> (r: Result<KeyPurpose, Error>)
        ensures
            match r {
                Ok(p) => Self::named(s@) == Some(p),
                Err(e) => Self::named(s@) is None && e is Other && e.detail()
                    == "Invalid key purpose"@,
            },
    {
        if str_eq(s, "verificationMethod") {
            Ok(KeyPurpose::VerificationMethod)
        } else if str_eq(s, "authentication") {
            Ok(KeyPurpose::Authentication)
        } else if str_eq(s, "assertionMethod") {
            Ok(KeyPurpose::AssertionMethod)
        } else if str_eq(s, "keyAgreement") {
            Ok(KeyPurpose::KeyAgreement)
        } else if str_eq(s, "capabilityInvocation") {
            Ok(KeyPurpose::CapabilityInvocation)
        } else if str_eq(s, "capabilityDelegation") {
            Ok(KeyPurpose::CapabilityDelegation)
        } else {
            Err(Error::Other("Invalid key purpose".to_owned()))
        }
    }

    /// Renders the purpose as the name of its document field.
    pub fn to_string(&self) -> (s: String)
        ensures
            s@ == self.name(),
    {
        match self {
            KeyPurpose::VerificationMethod => "verificationMethod".to_owned(),
            KeyPurpose::Authentication => "authentication".to_owned(),
            KeyPurpose::AssertionMethod => "assertionMethod".to_owned(),
            KeyPurpose::KeyAgreement => "keyAgreement".to_owned(),
            KeyPurpose::CapabilityInvocation => "capabilityInvocation".to_owned(),
            KeyPurpose::CapabilityDelegation => "capabilityDelegation".to_owned(),
        }
    }

    /// Parsing the name of a purpose gives that purpose back.
    pub proof fn lemma_name_round_trip(p: KeyPurpose)
        ensures
            Self::named(p.name()) == Some(p),
    {
        reveal_strlit("verificationMethod");
        reveal_strlit("authentication");
        reveal_strlit("assertionMethod");
        reveal_strlit("keyAgreement");
        reveal_strlit("capabilityInvocation");
        reveal_strlit("capabilityDelegation");
        assert("verificationMethod"@.len() == 18);
        assert("authentication"@.len() == 14);
        assert("assertionMethod"@.len() == 15);
        assert("keyAgreement"@.len() == 12);
        assert("capabilityInvocation"@.len() == 20);
        assert("capabilityDelegation"@.len() == 20);
        assert("capabilityInvocation"@[10] == 'I');
        assert("capabilityDelegation"@[10] == 'D');
    }
}

} // verus!
