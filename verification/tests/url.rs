//! Tests for the DID to HTTPS URL transformations.

use credibil_did::error::Error;
use credibil_did::web::DidWeb;
use credibil_did::webvh::DidWebVh;

fn web_pattern() -> regex::Regex {
    regex::Regex::new("^did:web:(?<identifier>[a-zA-Z0-9.\\-:\\%]+)$").expect("should compile")
}

fn webvh_pattern() -> regex::Regex {
    regex::Regex::new("^did:webvh:(?<identifier>[a-zA-Z0-9.\\-:\\%]+)$").expect("should compile")
}

fn samples() -> Vec<&'static str> {
    vec![
        "",
        "did",
        "did:web",
        "did:web:",
        "did:web:a",
        "did:web:example.com",
        "did:web:example.com\n",
        "did:web:example.com ",
        " did:web:example.com",
        "did:web:example.com:path:to",
        "did:web:example.com%3A8080",
        "did:web:example.com%3a8080",
        "did:web:exa_mple.com",
        "did:web:example.com/path",
        "did:web:ex\u{e4}mple.com",
        "did:web:%3A%3A",
        "did:web:::",
        "DID:WEB:example.com",
        "did:webvh",
        "did:webvh:",
        "did:webvh:scid",
        "did:webvh:scid:",
        "did:webvh::example.com",
        "did:webvh:scid:example.com",
        "did:webvh:scid:example.com:a:b",
        "did:webvh:scid:example.com%3A8080:a",
        "did:webvh:scid:example.com\n",
        "did:webvh:sc!d:example.com",
        "did:webvh:scid:ex\u{e4}mple.com",
        "did:key:z6Mk",
    ]
}

#[test]
fn should_construct_url() {
    let did = "did:web:domain.with-hypens.computer";
    let url = DidWeb::url(did).expect("should construct URL");
    assert_eq!(url, "https://domain.with-hypens.computer/.well-known/did.json");
}

#[test]
fn should_construct_default_url() {
    let did = "did:webvh:z6Mk3vz:domain.with-hyphens.computer";
    let url = DidWebVh::url(did).unwrap();
    assert_eq!(url, "https://domain.with-hyphens.computer/.well-known/did.jsonl");
}

#[test]
fn should_construct_path_url() {
    let did = "did:webvh:z6Mk3vz:domain.with-hyphens.computer:dids:issuer";
    let url = DidWebVh::url(did).unwrap();
    assert_eq!(url, "https://domain.with-hyphens.computer/dids/issuer/did.jsonl");
}

#[test]
fn should_construct_port_url() {
    let did = "did:webvh:z6Mk3vz:domain.with-hyphens.computer%3A8080";
    let url = DidWebVh::url(did).unwrap();
    assert_eq!(url, "https://domain.with-hyphens.computer:8080/.well-known/did.jsonl");
}

#[test]
fn web_url_of_simple_did() {
    let url = DidWeb::url("did:web:domain.with-hyphens.computer").expect("should construct URL");
    assert_eq!(url, "https://domain.with-hyphens.computer/.well-known/did.json");
}

#[test]
fn web_url_with_path_has_no_well_known() {
    let url = DidWeb::url("did:web:example.com:dids:issuer").expect("should construct URL");
    assert_eq!(url, "https://example.com/dids/issuer/did.json");
}

#[test]
fn web_url_with_port_decodes_the_colon() {
    let url = DidWeb::url("did:web:example.com%3A8080").expect("should construct URL");
    assert_eq!(url, "https://example.com:8080/.well-known/did.json");
}

#[test]
fn web_url_with_port_and_path() {
    let url = DidWeb::url("did:web:example.com%3A8080:a:b").expect("should construct URL");
    assert_eq!(url, "https://example.com:8080/a/b/did.json");
}

#[test]
fn web_url_leaves_lower_case_escape_alone() {
    let url = DidWeb::url("did:web:example.com%3a8080").expect("should construct URL");
    assert_eq!(url, "https://example.com%3a8080/.well-known/did.json");
}

#[test]
fn web_url_rejects_what_is_no_did_web() {
    for did in ["", "did:web:", "did:web:exa_mple.com", "did:webvh:scid:example.com", "did:web:a\n"] {
        match DidWeb::url(did) {
            Err(Error::InvalidDid(message)) => assert_eq!(message, "DID is not a valid did:web"),
            other => panic!("expected InvalidDid for {did:?}, got {other:?}"),
        }
    }
}

#[test]
fn webvh_url_rejects_what_is_not_well_formed() {
    for did in ["", "did:webvh:", "did:webvh:sc!d:example.com", "did:web:example.com"] {
        match DidWebVh::url(did) {
            Err(Error::InvalidDid(message)) => assert_eq!(message, "DID is not a valid did:webvh"),
            other => panic!("expected InvalidDid for {did:?}, got {other:?}"),
        }
    }
}

#[test]
fn webvh_url_rejects_a_did_without_scid() {
    match DidWebVh::url("did:webvh:example.com") {
        Err(Error::InvalidDid(message)) => {
            assert_eq!(message, "DID is not a valid did:webvh - no SCID")
        }
        other => panic!("expected InvalidDid, got {other:?}"),
    }
}

#[test]
fn webvh_url_rejects_a_did_that_names_no_place() {
    for did in ["did:webvh:z6Mk3vz:", "did:webvh::", "did:webvh:scid:"] {
        match DidWebVh::url(did) {
            Err(Error::InvalidDid(message)) => assert_eq!(message, "DID is not a valid did:webvh"),
            other => panic!("expected InvalidDid for {did:?}, got {other:?}"),
        }
    }
    assert_eq!(DidWebVh::url("did:webvh::a").unwrap(), "https://a/.well-known/did.jsonl");
    assert_eq!(DidWebVh::url("did:webvh:scid::").unwrap(), "https:////did.jsonl");
}

#[test]
fn webvh_url_with_port_and_path() {
    let url = DidWebVh::url("did:webvh:scid:example.com%3A8080:a:b").unwrap();
    assert_eq!(url, "https://example.com:8080/a/b/did.jsonl");
}

#[test]
fn web_url_agrees_with_the_pattern() {
    let pattern = web_pattern();
    for did in samples() {
        let expected = pattern.captures(did).map(|caps| {
            let identifier = &caps["identifier"];
            let domain = identifier.replace(':', "/").replace("%3A", ":");
            let mut url = format!("https://{domain}");
            if !identifier.contains(':') {
                url = format!("{url}/.well-known");
            }
            format!("{url}/did.json")
        });
        assert_eq!(DidWeb::url(did).ok(), expected, "for {did:?}");
    }
}

#[test]
fn webvh_url_agrees_with_the_pattern() {
    let pattern = webvh_pattern();
    for did in samples() {
        let expected = pattern.captures(did).and_then(|caps| {
            let identifier = caps["identifier"].split_once(':').map(|x| x.1.to_string())?;
            if identifier.is_empty() {
                return None;
            }
            let mut domain = identifier.replace(':', "/");
            if !identifier.contains(':') {
                domain.push_str("/.well-known");
            }
            let domain = domain.replace("%3A", ":");
            Some(format!("https://{domain}/did.jsonl"))
        });
        assert_eq!(DidWebVh::url(did).ok(), expected, "for {did:?}");
    }
}
