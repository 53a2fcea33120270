//! Errors reported by DID operations.

use vstd::prelude::*;

verus! {

/// What went wrong in a DID operation. Each variant carries a message for
/// the caller; the errors of a log carry the version of the entry at fault.
#[derive(Debug, Clone, PartialEq, Eq)]
pub enum Error {
    /// The DID string is malformed.
    InvalidDid(String),
    /// The DID is well formed but its method, or the version of its method,
    /// is not supported.
    MethodNotSupported(String),
    /// The caller asked for a representation that cannot be produced.
    RepresentationNotSupported(String),
    /// No document was found.
    NotFound(String),
    /// A signature is not valid, its verification method cannot be read, or
    /// its signer is not among the update keys.
    ProofVerification(String),
    /// The update keys do not match the hashes that the entry before
    /// committed to.
    PreRotationMismatch(String),
    /// The version of an entry does not hold its number and hash, or its
    /// time is before that of the entry before.
    ChainBroken(String),
    /// The SCID is not the hash that it should be.
    ScidMismatch(String),
    /// The weight of the witnesses' approvals is below the threshold.
    WitnessThreshold(String),
    /// The DID has moved though it may not.
    PortabilityViolation(String),
    /// Any other failure.
    Other(String),
}

impl Error {
    /// The error's code.
    pub open spec fn code(self) -> Seq<char> {
        match self {
            Error::InvalidDid(_) => "invalidDid"@,
            Error::MethodNotSupported(_) => "methodNotSupported"@,
            Error::RepresentationNotSupported(_) => "representationNotSupported"@,
            Error::NotFound(_) => "notFound"@,
            Error::ProofVerification(_) => "proofVerification"@,
            Error::PreRotationMismatch(_) => "preRotationMismatch"@,
            Error::ChainBroken(_) => "chainBroken"@,
            Error::ScidMismatch(_) => "scidMismatch"@,
            Error::WitnessThreshold(_) => "witnessThreshold"@,
            Error::PortabilityViolation(_) => "portabilityViolation"@,
            Error::Other(_) => "other"@,
        }
    }

    /// The message carried by the error.
    pub open spec fn detail(self) -> Seq<char> {
        match self {
            Error::InvalidDid(m) => m@,
            Error::MethodNotSupported(m) => m@,
            Error::RepresentationNotSupported(m) => m@,
            Error::NotFound(m) => m@,
            Error::ProofVerification(m) => m@,
            Error::PreRotationMismatch(m) => m@,
            Error::ChainBroken(m) => m@,
            Error::ScidMismatch(m) => m@,
            Error::WitnessThreshold(m) => m@,
            Error::PortabilityViolation(m) => m@,
            Error::Other(m) => m@,
        }
    }

    /// The error's code.
    pub fn kind(&self) -> (s: &'static str)
        ensures
            s@ == self.code(),
    {
        match self {
            Error::InvalidDid(_) => "invalidDid",
            Error::MethodNotSupported(_) => "methodNotSupported",
            Error::RepresentationNotSupported(_) => "representationNotSupported",
            Error::NotFound(_) => "notFound",
            Error::ProofVerification(_) => "proofVerification",
            Error::PreRotationMismatch(_) => "preRotationMismatch",
            Error::ChainBroken(_) => "chainBroken",
            Error::ScidMismatch(_) => "scidMismatch",
            Error::WitnessThreshold(_) => "witnessThreshold",
            Error::PortabilityViolation(_) => "portabilityViolation",
            Error::Other(_) => "other",
        }
    }

    /// The message carried by the error.
    pub fn message(&self) -> (m: String)
        ensures
            m@ == self.detail(),
    {
        match self {
            Error::InvalidDid(m) => m.clone(),
            Error::MethodNotSupported(m) => m.clone(),
            Error::RepresentationNotSupported(m) => m.clone(),
            Error::NotFound(m) => m.clone(),
            Error::ProofVerification(m) => m.clone(),
            Error::PreRotationMismatch(m) => m.clone(),
            Error::ChainBroken(m) => m.clone(),
            Error::ScidMismatch(m) => m.clone(),
            Error::WitnessThreshold(m) => m.clone(),
            Error::PortabilityViolation(m) => m.clone(),
            Error::Other(m) => m.clone(),
        }
    }

    /// Renders the error as its code, a colon, a space and its message.
    pub fn to_string(&self) -> (s: String)
        ensures
            s@ == self.code() + ": "@ + self.detail(),
    {
        let mut s = self.kind().to_owned();
        s.append(": ");
        let m = self.message();
        s.append(m.as_str());
        s
    }
}

} // verus!
