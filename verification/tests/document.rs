//! Tests for the DID document and its canonical JSON text.

use credibil_did::document::{
    Document, MethodType, PublicKeyFormat, Relation, Service, VerificationMethod,
};
use credibil_did::json::{
    bool_json, decimal_json, json_of, push_bool, push_decimal, push_escaped_char, push_string,
    string_json,
};
use credibil_did::error::Error;
use credibil_did::jwk::PublicKeyJwk;
use credibil_did::{KeyPurpose, BASE_CONTEXT};

fn text(chars: Vec<char>) -> String {
    chars.into_iter().collect()
}

fn method(id: &str) -> VerificationMethod {
    VerificationMethod {
        id: id.to_string(),
        controller: "did:web:example.com".to_string(),
        type_: MethodType::Ed25519VerificationKey2020,
        key: PublicKeyFormat::PublicKeyJwk(PublicKeyJwk::from_bytes(&[1u8; 32]).unwrap()),
    }
}

fn document(methods: Option<Vec<VerificationMethod>>, authentication: Vec<Relation>) -> Document {
    Document {
        context: vec!["https://www.w3.org/ns/did/v1".to_string()],
        id: "did:web:example.com".to_string(),
        also_known_as: None,
        controller: None,
        verification_method: methods,
        authentication: Some(authentication),
        assertion_method: None,
        key_agreement: None,
        capability_invocation: None,
        capability_delegation: None,
        service: None,
        did_document_metadata: None,
    }
}

fn reference(id: &str) -> Relation {
    Relation::Reference(id.to_string())
}

#[test]
fn strings_are_escaped_canonically() {
    assert_eq!(text(string_json("plain")), "\"plain\"");
    assert_eq!(text(string_json("")), "\"\"");
    assert_eq!(text(string_json("a\"b\\c")), "\"a\\\"b\\\\c\"");
    assert_eq!(text(string_json("\u{8}\t\n\u{c}\r")), "\"\\b\\t\\n\\f\\r\"");
    assert_eq!(text(string_json("\u{0}\u{1}\u{b}\u{1f}")), "\"\\u0000\\u0001\\u000b\\u001f\"");
    assert_eq!(text(string_json(" /\u{7f}\u{e4}\u{20ac}\u{1f600}")), "\" /\u{7f}\u{e4}\u{20ac}\u{1f600}\"");
    let mut out = vec!['['];
    push_string(&mut out, "x");
    push_escaped_char(&mut out, '\n');
    assert_eq!(text(out), "[\"x\"\\n");
}

#[test]
fn strings_agree_with_the_outside_serialiser() {
    for s in ["", "plain", "a\"b\\c", "\u{0}\u{1f} \u{7f}", "tab\there", "\u{e4}\u{1f600}", "{SCID}"] {
        let expected = serde_json::to_string(s).unwrap();
        assert_eq!(text(string_json(s)), expected);
    }
}

#[test]
fn numbers_and_truth_values_are_shortest() {
    assert_eq!(text(decimal_json(0)), "0");
    assert_eq!(text(decimal_json(7)), "7");
    assert_eq!(text(decimal_json(10)), "10");
    assert_eq!(text(decimal_json(1234567890)), "1234567890");
    assert_eq!(text(decimal_json(u64::MAX)), "18446744073709551615");
    assert_eq!(text(bool_json(true)), "true");
    assert_eq!(text(bool_json(false)), "false");
    let mut out = Vec::new();
    push_decimal(&mut out, 60);
    push_bool(&mut out, true);
    assert_eq!(text(out), "60true");
}

#[test]
fn document_text_has_its_members_in_order() {
    let mut doc = document(
        Some(vec![method("did:web:example.com#key-1")]),
        vec![reference("#key-1"), Relation::Embedded(method("did:web:example.com#key-2"))],
    );
    doc.also_known_as = Some(vec!["https://example.com".to_string()]);
    doc.controller = Some(vec![]);
    doc.key_agreement = Some(vec![]);
    doc.service = Some(vec![Service {
        id: "#s".to_string(),
        type_: "T".to_string(),
        service_endpoint: vec![],
    }]);
    let jwk = "{\"crv\":\"Ed25519\",\"kty\":\"OKP\",\"x\":\"AQEBAQEBAQEBAQEBAQEBAQEBAQEBAQEBAQEBAQEBAQE\"}";
    let vm = |n: u8| {
        format!(
            "{{\"controller\":\"did:web:example.com\",\"id\":\"did:web:example.com#key-{n}\",\
             \"publicKeyJwk\":{jwk},\"type\":\"Ed25519VerificationKey2020\"}}"
        )
    };
    let expected = format!(
        "{{\"@context\":[\"https://www.w3.org/ns/did/v1\"],\
         \"alsoKnownAs\":[\"https://example.com\"],\
         \"authentication\":[\"#key-1\",{}],\
         \"controller\":[],\
         \"id\":\"did:web:example.com\",\
         \"keyAgreement\":[],\
         \"service\":[{{\"id\":\"#s\",\"serviceEndpoint\":[],\"type\":\"T\"}}],\
         \"verificationMethod\":[{}]}}",
        vm(2),
        vm(1)
    );
    assert_eq!(text(json_of(&doc)), expected);
    let parsed: serde_json::Value = serde_json::from_str(&expected).expect("should be JSON");
    assert_eq!(parsed["id"], "did:web:example.com");
}

#[test]
fn local_references_must_name_a_method() {
    let methods = || Some(vec![method("did:web:example.com#key-1"), method("#key-2")]);
    for id in ["#key-1", "did:web:example.com#key-1", "#key-2"] {
        assert!(document(methods(), vec![reference(id)]).check_references(), "{id}");
    }
    for id in ["#key-3", "did:web:example.com#key-3", "#", "did:web:example.com#"] {
        assert!(!document(methods(), vec![reference(id)]).check_references(), "{id}");
    }
    assert!(!document(None, vec![reference("#key-1")]).check_references());
    assert!(!document(methods(), vec![reference("#key-1"), reference("#key-3")]).check_references());
}

#[test]
fn references_to_other_documents_are_not_looked_at() {
    for id in ["did:web:other.example#key-1", "did:key:z6Mk#z6Mk", "", "did:web:example.com"] {
        assert!(document(None, vec![reference(id)]).check_references(), "{id}");
    }
    let embedded = Relation::Embedded(method("did:web:example.com#key-9"));
    assert!(document(None, vec![embedded]).check_references());
}

#[test]
fn every_relationship_is_looked_at() {
    let mut doc = document(Some(vec![method("#key-1")]), vec![reference("#key-1")]);
    doc.capability_delegation = Some(vec![reference("#key-2")]);
    assert!(!doc.check_references());
    doc.capability_delegation = Some(vec![reference("#key-1")]);
    doc.assertion_method = Some(vec![reference("#key-1")]);
    doc.key_agreement = Some(vec![]);
    doc.capability_invocation = Some(vec![reference("did:web:other.example#k")]);
    assert!(doc.check_references());
    doc.capability_invocation = Some(vec![reference("#missing")]);
    assert!(!doc.check_references());
}

#[test]
fn method_type_names() {
    assert_eq!(MethodType::Multikey.as_str(), "Multikey");
    assert_eq!(MethodType::JsonWebKey2020.as_str(), "JsonWebKey2020");
    assert_eq!(MethodType::Ed25519VerificationKey2020.as_str(), "Ed25519VerificationKey2020");
}

#[test]
fn new_document_names_the_did_context() {
    let doc = Document::new("did:web:example.com");
    assert_eq!(doc.id, "did:web:example.com");
    assert_eq!(doc.context, vec![BASE_CONTEXT[0].to_string()]);
    assert_eq!(doc.verification_method, None);
    assert_eq!(doc.authentication, None);
    assert_eq!(doc.service, None);
    assert!(doc.check_references());
    assert_eq!(
        text(json_of(&doc)),
        "{\"@context\":[\"https://www.w3.org/ns/did/v1\"],\"id\":\"did:web:example.com\"}"
    );
}

#[test]
fn methods_and_references_are_added_for_their_purpose() {
    let mut doc = Document::new("did:web:example.com");
    let first = method("did:web:example.com#key-1");
    doc.add_verification_method(Relation::Embedded(first.clone()), KeyPurpose::VerificationMethod)
        .expect("should add verification method");
    doc.add_verification_method(reference("#key-1"), KeyPurpose::Authentication)
        .expect("should add verification method");
    doc.add_verification_method(reference("did:web:example.com#key-1"), KeyPurpose::Authentication)
        .expect("should add verification method");
    let inline = Relation::Embedded(method("did:web:example.com#key-2"));
    doc.add_verification_method(inline.clone(), KeyPurpose::KeyAgreement)
        .expect("should add verification method");
    doc.add_verification_method(reference("did:web:other.example#k"), KeyPurpose::AssertionMethod)
        .expect("should add verification method");
    doc.add_verification_method(reference("#key-1"), KeyPurpose::CapabilityInvocation).unwrap();
    doc.add_verification_method(reference("#key-1"), KeyPurpose::CapabilityDelegation).unwrap();

    assert_eq!(doc.verification_method, Some(vec![first]));
    assert_eq!(
        doc.authentication,
        Some(vec![reference("#key-1"), reference("did:web:example.com#key-1")])
    );
    assert_eq!(doc.key_agreement, Some(vec![inline]));
    assert_eq!(doc.assertion_method, Some(vec![reference("did:web:other.example#k")]));
    assert_eq!(doc.capability_invocation, Some(vec![reference("#key-1")]));
    assert_eq!(doc.capability_delegation, Some(vec![reference("#key-1")]));
    assert!(doc.check_references());
}

#[test]
fn what_a_document_does_not_admit_is_not_added() {
    let mut doc = Document::new("did:web:example.com");
    let before = doc.clone();
    let result = doc.add_verification_method(reference("#key-1"), KeyPurpose::VerificationMethod);
    assert_eq!(result, Err(Error::Other("a verification method is held inline".to_string())));
    assert_eq!(doc, before);
    for purpose in [
        KeyPurpose::Authentication,
        KeyPurpose::AssertionMethod,
        KeyPurpose::KeyAgreement,
        KeyPurpose::CapabilityInvocation,
        KeyPurpose::CapabilityDelegation,
    ] {
        let result = doc.add_verification_method(reference("#key-1"), purpose);
        assert_eq!(
            result,
            Err(Error::Other("the reference names no verification method".to_string()))
        );
        assert_eq!(doc, before);
    }
}

#[test]
fn services_are_added_in_order() {
    let mut doc = Document::new("did:web:example.com");
    let service = |id: &str| Service {
        id: id.to_string(),
        type_: "LinkedVerifiablePresentation".to_string(),
        service_endpoint: vec!["https://example.com/.well-known/whois".to_string()],
    };
    doc.add_service(service("#a"));
    doc.add_service(service("#b"));
    assert_eq!(doc.service, Some(vec![service("#a"), service("#b")]));
    assert_eq!(doc.verification_method, None);
}
