//! Tests for the names of methods, key purposes and media types.

use credibil_did::error::Error;
use credibil_did::resolve::ContentType;
use credibil_did::{KeyPurpose, Method, BASE_CONTEXT};

#[test]
fn method_parses_its_names() {
    assert_eq!(Method::from_str("key").unwrap(), Method::Key);
    assert_eq!(Method::from_str("web").unwrap(), Method::Web);
    assert_eq!(Method::from_str("webvh").unwrap(), Method::WebVh);
}

#[test]
fn method_rejects_other_names() {
    for name in ["", "jwk", "Web", "webvh ", "did:web"] {
        match Method::from_str(name) {
            Err(Error::MethodNotSupported(message)) => assert_eq!(message, name),
            other => panic!("expected MethodNotSupported for {name:?}, got {other:?}"),
        }
    }
}

#[test]
fn method_name_round_trips() {
    for method in [Method::Key, Method::Web, Method::WebVh] {
        assert_eq!(Method::from_str(&method.to_string()).unwrap(), method);
    }
    assert_eq!(Method::WebVh.to_string(), "webvh");
}

#[test]
fn method_default_is_key() {
    assert_eq!(Method::default(), Method::Key);
}

#[test]
fn key_purpose_name_round_trips() {
    let purposes = [
        (KeyPurpose::VerificationMethod, "verificationMethod"),
        (KeyPurpose::Authentication, "authentication"),
        (KeyPurpose::AssertionMethod, "assertionMethod"),
        (KeyPurpose::KeyAgreement, "keyAgreement"),
        (KeyPurpose::CapabilityInvocation, "capabilityInvocation"),
        (KeyPurpose::CapabilityDelegation, "capabilityDelegation"),
    ];
    for (purpose, name) in purposes {
        assert_eq!(purpose.to_string(), name);
        assert_eq!(KeyPurpose::from_str(name).unwrap(), purpose);
    }
}

#[test]
fn key_purpose_rejects_other_names() {
    for name in ["", "Authentication", "verification_method", "keyagreement"] {
        match KeyPurpose::from_str(name) {
            Err(Error::Other(message)) => assert_eq!(message, "Invalid key purpose"),
            other => panic!("expected Other for {name:?}, got {other:?}"),
        }
    }
}

#[test]
fn content_type_names() {
    assert_eq!(ContentType::DidJson.to_string(), "application/did+json");
    assert_eq!(ContentType::DidLdJson.to_string(), "application/did+ld+json");
    assert_eq!(ContentType::JsonL.to_string(), "text/jsonl");
}

#[test]
fn error_renders_code_and_message() {
    let error = Error::InvalidDid("bad".to_string());
    assert_eq!(error.message(), "bad");
    assert_eq!(error.to_string(), "invalidDid: bad");
    assert_eq!(Error::NotFound("x".to_string()).to_string(), "notFound: x");
    assert_eq!(
        Error::RepresentationNotSupported("y".to_string()).to_string(),
        "representationNotSupported: y"
    );
    assert_eq!(Error::MethodNotSupported("z".to_string()).to_string(), "methodNotSupported: z");
    assert_eq!(Error::Other("o".to_string()).to_string(), "other: o");
}

#[test]
fn base_context_starts_with_the_did_context() {
    assert_eq!(BASE_CONTEXT.len(), 3);
    assert_eq!(BASE_CONTEXT[0], "https://www.w3.org/ns/did/v1");
}
