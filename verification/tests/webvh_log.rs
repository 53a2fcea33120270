//! Tests for building and replaying `did:webvh` logs.

use credibil_did::document::{
    Document, MethodType, PublicKeyFormat, Relation, Service, VerificationMethod,
};
use credibil_did::error::Error;
use credibil_did::json::{json_of, Canonical};
use credibil_did::kms::Keyring;
use credibil_did::hash::{hash, hash_text};
use credibil_did::jwk::decode_multikey;
use credibil_did::webvh::builder::{checked, commitment, commitments, create, deactivate, update};
use credibil_did::webvh::integrity::{reference_key, signing_input_of};
use credibil_did::webvh::log::{
    LogEntry, Parameters, State, Witness, WitnessEntry, WitnessWeight, METHOD, SCID_PLACEHOLDER,
};
use credibil_did::webvh::params::{
    deactivated_of, next_key_hashes_of, portable_of, update_keys_of, witness_of,
};
use credibil_did::webvh::replay::{
    check_entry, expected_version_id, resolve_log, version_id_of, Fault, ReplayOptions,
};
use credibil_did::webvh::time::{precedes, timestamp};
use sha2::Digest;

const T1: &str = "2024-01-01T00:00:00Z";
const T2: &str = "2024-01-02T00:00:00Z";
const T3: &str = "2024-01-03T00:00:00Z";

fn bytes(hex: &str) -> Vec<u8> {
    let digits: Vec<u8> = hex.bytes().map(|b| (b as char).to_digit(16).unwrap() as u8).collect();
    digits.chunks(2).map(|pair| pair[0] * 16 + pair[1]).collect()
}

fn secret(n: usize) -> Vec<u8> {
    let secrets = [
        "9d61b19deffd5a60ba844af492ec2cc44449c5697b326919703bac031cae7f60",
        "4ccd089b28ff96da9db6c346ec114e0f5b8a319f35aba624da8cf6ed4fb8a6fb",
        "c5aa8df43f9f837bedb7442f31dcb7b166d38535076f094b85ce3a2e0b4458f7",
        "f5e5767cf153319517630f226876b86c8160cc583bc013744c6bf255f5cc0ee5",
        "833fe62409237b9d62ec77587520911e9a759cec1d19755b7da901b96dca3d42",
    ];
    bytes(secrets[n])
}

/// A keyring whose signing key is secret `n`, followed by secret `n + 1`.
fn keyring(n: usize) -> Keyring {
    let mut keyring = Keyring::new();
    keyring.add_key_with("signing", &secret(n), &secret(n + 1)).expect("should add key");
    keyring.set_verification_method("signing").expect("should set verification method");
    keyring
}

fn multikey(n: usize) -> String {
    keyring(n).multibase("signing").expect("should get multibase key")
}

fn document(id: &str, key: &str) -> Document {
    let method = VerificationMethod {
        id: format!("{id}#key-0"),
        controller: id.to_string(),
        type_: MethodType::Multikey,
        key: PublicKeyFormat::PublicKeyMultibase(key.to_string()),
    };
    Document {
        context: vec!["https://www.w3.org/ns/did/v1".to_string()],
        id: id.to_string(),
        also_known_as: None,
        controller: None,
        verification_method: Some(vec![method]),
        authentication: Some(vec![Relation::Reference(format!("{id}#key-0"))]),
        assertion_method: None,
        key_agreement: None,
        capability_invocation: None,
        capability_delegation: None,
        service: Some(vec![Service {
            id: format!("did:webvh:{SCID_PLACEHOLDER}:example.com#whois"),
            type_: "LinkedVerifiablePresentation".to_string(),
            service_endpoint: vec!["https://example.com/.well-known/whois".to_string()],
        }]),
        did_document_metadata: None,
    }
}

fn placeholder_did() -> String {
    format!("did:webvh:{SCID_PLACEHOLDER}:credibil.io:issuers:example")
}

fn witnesses() -> (Keyring, Keyring, Witness) {
    let w1 = keyring(3);
    let mut w2 = Keyring::new();
    w2.add_key_with("signing", &secret(4), &secret(0)).expect("should add key");
    w2.set_verification_method("signing").expect("should set verification method");
    let witness = Witness {
        threshold: 60,
        witnesses: vec![
            WitnessWeight { id: w1.verification_method().unwrap(), weight: 50 },
            WitnessWeight { id: w2.verification_method().unwrap(), weight: 40 },
        ],
    };
    (w1, w2, witness)
}

/// A log of one entry, committed to key 1, with witnesses.
fn created() -> Vec<LogEntry> {
    let signer = keyring(0);
    let doc = document(&placeholder_did(), &multikey(0));
    let (_, _, witness) = witnesses();
    create(&doc, vec![multikey(0)], &vec![multikey(1)], false, Some(witness), Some(60), T1, &signer)
        .expect("should build document")
}

fn did_of(log: &[LogEntry]) -> String {
    log[0].state.id.clone()
}

/// The log of `created` with an update that rotates to key 1 and commits to
/// key 2.
fn updated() -> Vec<LogEntry> {
    let log = created();
    let doc = document(&did_of(&log), &multikey(1));
    update(log, &doc, Some(vec![multikey(1)]), Some(&vec![multikey(2)]), T2, &keyring(0))
        .expect("should build document")
}

#[test]
fn create_success() {
    let log = created();
    assert_eq!(log.len(), 1);
    let entry = &log[0];
    let scid = entry.parameters.scid.clone().expect("should have SCID");
    assert!(scid.starts_with("zQm"));
    assert_eq!(scid.len(), 47);
    assert_eq!(entry.state.id, format!("did:webvh:{scid}:credibil.io:issuers:example"));
    assert!(entry.version_id.starts_with("1-zQm"));
    assert_eq!(entry.version_time, T1);
    assert_eq!(entry.parameters.method.as_deref(), Some(METHOD));
    assert_eq!(entry.parameters.update_keys, Some(vec![multikey(0)]));
    assert_eq!(entry.parameters.next_key_hashes, Some(vec![commitment(&multikey(1))]));
    assert_eq!(entry.parameters.portable, Some(false));
    assert_eq!(entry.parameters.ttl, Some(60));
    assert_eq!(entry.parameters.deactivated, None);
    assert!(!entry.state.document.contains(SCID_PLACEHOLDER));
    assert!(entry.state.document.contains(&format!("did:webvh:{scid}:example.com#whois")));
    assert_eq!(entry.proof.len(), 1);
    assert_eq!(entry.proof[0].type_, "DataIntegrityProof");
    assert_eq!(entry.proof[0].cryptosuite, "eddsa-jcs-2022");
    assert_eq!(entry.proof[0].proof_purpose, "authentication");
    assert_eq!(entry.proof[0].created, T1);
    assert_eq!(entry.proof[0].verification_method, keyring(0).verification_method().unwrap());
    let text: String = json_of(entry).into_iter().collect();
    println!("{text}");
    assert!(text.starts_with("{\"parameters\":{\"method\":\"did:webvh:0.5\",\"nextKeyHashes\":[\""));
    assert!(text.contains(",\"proof\":[{\"created\":\"2024-01-01T00:00:00Z\",\"cryptosuite\""));
    assert!(text.ends_with(",\"versionTime\":\"2024-01-01T00:00:00Z\"}"));
}

#[test]
fn create_is_deterministic() {
    assert_eq!(created(), created());
}

#[test]
fn create_rejects_missing_update_keys() {
    let doc = document(&placeholder_did(), &multikey(0));
    let result = create(&doc, vec![], &vec![], false, None, None, T1, &keyring(0));
    assert_eq!(result, Err(Error::Other("update keys are missing".to_string())));
}

#[test]
fn create_rejects_witnesses_that_cannot_reach_the_threshold() {
    let doc = document(&placeholder_did(), &multikey(0));
    let (_, _, mut witness) = witnesses();
    witness.threshold = 91;
    let result =
        create(&doc, vec![multikey(0)], &vec![], false, Some(witness), None, T1, &keyring(0));
    assert_eq!(result, Err(Error::WitnessThreshold("threshold is out of reach".to_string())));
    let (_, _, mut witness) = witnesses();
    witness.threshold = 0;
    let result =
        create(&doc, vec![multikey(0)], &vec![], false, Some(witness), None, T1, &keyring(0));
    assert!(matches!(result, Err(Error::WitnessThreshold(_))));
    let (_, _, mut witness) = witnesses();
    witness.threshold = 90;
    assert!(witness.is_valid());
    let result =
        create(&doc, vec![multikey(0)], &vec![], false, Some(witness), None, T1, &keyring(0));
    assert!(result.is_ok());
}

#[test]
fn create_rejects_a_time_that_is_no_timestamp() {
    let doc = document(&placeholder_did(), &multikey(0));
    for now in ["", "2024-01-01", "2024-01-01T00:00:00", "2024-01-01 00:00:00Z", "yesterday"] {
        let result = create(&doc, vec![multikey(0)], &vec![], false, None, None, now, &keyring(0));
        assert_eq!(result, Err(Error::ChainBroken(now.to_string())));
    }
}

#[test]
fn create_rejects_a_signer_that_is_no_update_key() {
    let doc = document(&placeholder_did(), &multikey(0));
    let result = create(&doc, vec![multikey(0)], &vec![], false, None, None, T1, &keyring(1));
    assert!(matches!(result, Err(Error::ProofVerification(_))));
}

#[test]
fn create_passes_the_signers_failure_on() {
    let doc = document(&placeholder_did(), &multikey(0));
    let result = create(&doc, vec![multikey(0)], &vec![], false, None, None, T1, &Keyring::new());
    assert_eq!(result, Err(Error::Other("verification method not set".to_string())));
}

#[test]
fn resolve_single() {
    let log = created();
    let (w1, w2, _) = witnesses();
    let witness_proofs = vec![WitnessEntry {
        version_id: log[0].version_id.clone(),
        proof: vec![
            log[0].prove(&w1, T1).expect("should get witness proof"),
            log[0].prove(&w2, T1).expect("should get witness proof"),
        ],
    }];
    let resolved = resolve_log(&log, Some(&witness_proofs), None).expect("should resolve log");
    assert_eq!(resolved.state, log[0].state);
    assert_eq!(resolved.metadata.version_id, log[0].version_id);
    assert_eq!(resolved.metadata.version_time, T1);
    assert!(!resolved.metadata.deactivated);
    assert_eq!(resolved.metadata.next_update, None);
}

#[test]
fn resolve_needs_the_weight_of_the_witnesses() {
    let log = created();
    let (w1, w2, _) = witnesses();
    let version_id = log[0].version_id.clone();
    let only = |proof| vec![WitnessEntry { version_id: version_id.clone(), proof: vec![proof] }];
    let second = only(log[0].prove(&w2, T1).unwrap());
    assert_eq!(
        resolve_log(&log, Some(&second), None),
        Err(Error::WitnessThreshold(version_id.clone()))
    );
    let first = only(log[0].prove(&w1, T1).unwrap());
    assert_eq!(
        resolve_log(&log, Some(&first), None),
        Err(Error::WitnessThreshold(version_id.clone()))
    );
    let twice = vec![WitnessEntry {
        version_id: version_id.clone(),
        proof: vec![log[0].prove(&w1, T1).unwrap(), log[0].prove(&w1, T2).unwrap()],
    }];
    assert_eq!(
        resolve_log(&log, Some(&twice), None),
        Err(Error::WitnessThreshold(version_id.clone()))
    );
    let apart = vec![
        WitnessEntry { version_id: version_id.clone(), proof: vec![log[0].prove(&w1, T1).unwrap()] },
        WitnessEntry { version_id: version_id.clone(), proof: vec![log[0].prove(&w2, T1).unwrap()] },
    ];
    assert!(resolve_log(&log, Some(&apart), None).is_ok());
}

#[test]
fn resolve_without_witness_proofs_fails_a_witnessed_log() {
    let log = created();
    assert_eq!(
        resolve_log(&log, Some(&vec![]), None),
        Err(Error::WitnessThreshold(log[0].version_id.clone()))
    );
    let elsewhere = vec![WitnessEntry {
        version_id: "2-zQmOther".to_string(),
        proof: vec![log[0].prove(&witnesses().0, T1).unwrap(), log[0].prove(&witnesses().1, T1).unwrap()],
    }];
    assert!(matches!(resolve_log(&log, Some(&elsewhere), None), Err(Error::WitnessThreshold(_))));
    assert!(resolve_log(&log, None, None).is_ok());
}

#[test]
fn resolve_rejects_a_witness_proof_by_another_key() {
    let log = created();
    let (_, w2, _) = witnesses();
    let mut forged = log[0].prove(&w2, T1).unwrap();
    forged.verification_method = witnesses().0.verification_method().unwrap();
    let good = log[0].prove(&w2, T1).unwrap();
    let proofs = vec![WitnessEntry { version_id: log[0].version_id.clone(), proof: vec![forged, good] }];
    assert!(matches!(resolve_log(&log, Some(&proofs), None), Err(Error::WitnessThreshold(_))));
}

#[test]
fn resolve_multiple() {
    let log = updated();
    assert_eq!(log.len(), 2);
    assert!(log[1].version_id.starts_with("2-zQm"));
    let (w1, w2, _) = witnesses();
    let proofs_for = |entry: &LogEntry, time| WitnessEntry {
        version_id: entry.version_id.clone(),
        proof: vec![entry.prove(&w1, time).unwrap(), entry.prove(&w2, time).unwrap()],
    };
    let witness_proofs = vec![proofs_for(&log[0], T1), proofs_for(&log[1], T2)];
    let resolved = resolve_log(&log, Some(&witness_proofs), None).expect("should resolve log");
    let doc = document(&did_of(&log), &multikey(1));
    assert_eq!(resolved.state, State::of(&doc));
    assert_eq!(resolved.metadata.version_id, log[1].version_id);
    assert!(!resolved.metadata.deactivated);

    let first_only = vec![proofs_for(&log[0], T1)];
    assert_eq!(
        resolve_log(&log, Some(&first_only), None),
        Err(Error::WitnessThreshold(log[1].version_id.clone()))
    );
}

#[test]
fn create_then_deactivate() {
    let log = created();
    let first = log[0].clone();
    let log = deactivate(log, vec![multikey(1)], T2, &keyring(0), &keyring(1))
        .expect("should build deactivated document");
    assert_eq!(log.len(), 3);
    assert_eq!(log[0], first);
    assert_eq!(log[1].parameters.update_keys, Some(vec![multikey(1)]));
    assert_eq!(log[1].parameters.next_key_hashes, Some(vec![]));
    assert_eq!(log[1].parameters.deactivated, None);
    assert_eq!(log[2].parameters.deactivated, Some(true));
    assert_eq!(log[2].parameters.update_keys, Some(vec![]));
    assert_eq!(log[2].state, first.state);
    assert!(log[1].version_id.starts_with("2-"));
    assert!(log[2].version_id.starts_with("3-"));
    let resolved = resolve_log(&log, None, None).expect("should resolve log");
    assert!(resolved.metadata.deactivated);
    assert_eq!(resolved.state, first.state);
}

#[test]
fn update_then_deactivate() {
    let log = updated();
    let log = deactivate(log, vec![multikey(2)], T3, &keyring(1), &keyring(2))
        .expect("should build deactivated document");
    assert_eq!(log.len(), 4);
    assert_eq!(log[3].parameters.deactivated, Some(true));
    assert_eq!(log[3].parameters.update_keys, Some(vec![]));
}

#[test]
fn resolve_deactivated() {
    let log = updated();
    let update_state = log[1].state.clone();
    let log = deactivate(log, vec![multikey(2)], T3, &keyring(1), &keyring(2))
        .expect("should build deactivated document");
    let resolved = resolve_log(&log, None, None).expect("should resolve log");
    assert!(resolved.metadata.deactivated);
    assert_eq!(resolved.state, update_state);
    assert_eq!(resolved.metadata.version_id, log[3].version_id);
    assert_eq!(resolved.metadata.version_time, T3);
}

#[test]
fn deactivate_without_commitment_adds_one_entry() {
    let doc = document(&placeholder_did(), &multikey(0));
    let log = create(&doc, vec![multikey(0)], &vec![], true, None, None, T1, &keyring(0))
        .expect("should build document");
    let log = deactivate(log, vec![], T1, &keyring(0), &Keyring::new())
        .expect("should build deactivated document");
    assert_eq!(log.len(), 2);
    assert_eq!(log[1].parameters.deactivated, Some(true));
    assert_eq!(log[1].version_time, T1);
    assert!(resolve_log(&log, None, None).expect("should resolve log").metadata.deactivated);
}

#[test]
fn deactivate_rejects_keys_that_were_not_committed_to() {
    let result = deactivate(created(), vec![multikey(2)], T2, &keyring(0), &keyring(2));
    assert!(matches!(result, Err(Error::PreRotationMismatch(_))));
    let result = deactivate(created(), vec![multikey(1)], T2, &keyring(0), &keyring(0));
    assert!(matches!(result, Err(Error::ProofVerification(_))));
    assert!(matches!(
        deactivate(vec![], vec![], T2, &keyring(0), &keyring(0)),
        Err(Error::NotFound(_))
    ));
}

#[test]
fn update_rejects_a_time_that_is_not_later() {
    let doc = document(&did_of(&created()), &multikey(1));
    for now in [T1, "2023-12-31T23:59:59Z", "later"] {
        let result = update(
            created(),
            &doc,
            Some(vec![multikey(1)]),
            Some(&vec![multikey(2)]),
            now,
            &keyring(0),
        );
        assert_eq!(result, Err(Error::ChainBroken(now.to_string())));
    }
    let result = update(vec![], &doc, None, None, T2, &keyring(0));
    assert!(matches!(result, Err(Error::NotFound(_))));
}

#[test]
fn update_rejects_keys_that_were_not_committed_to() {
    let doc = document(&did_of(&created()), &multikey(1));
    let result = update(created(), &doc, None, None, T2, &keyring(0));
    assert!(matches!(result, Err(Error::PreRotationMismatch(_))));
    let result = update(created(), &doc, Some(vec![multikey(2)]), None, T2, &keyring(0));
    assert!(matches!(result, Err(Error::PreRotationMismatch(_))));
    let result =
        update(created(), &doc, Some(vec![multikey(1), multikey(1)]), None, T2, &keyring(0));
    assert!(matches!(result, Err(Error::PreRotationMismatch(_))));
}

#[test]
fn update_rejects_a_signer_that_is_no_update_key() {
    let doc = document(&did_of(&created()), &multikey(1));
    let result = update(created(), &doc, Some(vec![multikey(1)]), None, T2, &keyring(1));
    assert!(matches!(result, Err(Error::ProofVerification(_))));
}

#[test]
fn update_rejects_a_moved_did_unless_portable() {
    let moved = "did:webvh:scid:elsewhere.example";
    let result = update(
        created(),
        &document(moved, &multikey(1)),
        Some(vec![multikey(1)]),
        None,
        T2,
        &keyring(0),
    );
    assert!(matches!(result, Err(Error::PortabilityViolation(_))));

    let doc = document(&placeholder_did(), &multikey(0));
    let portable = create(&doc, vec![multikey(0)], &vec![], true, None, None, T1, &keyring(0))
        .expect("should build document");
    let log = update(portable, &document(moved, &multikey(0)), None, None, T2, &keyring(0))
        .expect("should build document");
    assert_eq!(resolve_log(&log, None, None).unwrap().state.id, moved);
}

#[test]
fn resolving_a_tampered_state_breaks_the_chain() {
    let mut log = updated();
    log[1].state.document = log[1].state.document.replace("key-0", "key-1");
    assert_eq!(resolve_log(&log, None, None), Err(Error::ChainBroken(log[1].version_id.clone())));

    let mut log = updated();
    let scid = log[0].parameters.scid.clone().unwrap();
    log[0].state.document = log[0].state.document.replace("whois", "whoam");
    let result = resolve_log(&log, None, None);
    assert_eq!(result, Err(Error::ScidMismatch(log[0].version_id.clone())));
    assert!(scid.starts_with('z'));
}

#[test]
fn resolving_reports_each_fault() {
    let mut log = updated();
    log[1].parameters.scid = Some("zQmOther".to_string());
    assert_eq!(resolve_log(&log, None, None), Err(Error::ScidMismatch(log[1].version_id.clone())));

    let mut log = updated();
    log[1].version_id = log[1].version_id.replacen("2-", "3-", 1);
    assert_eq!(resolve_log(&log, None, None), Err(Error::ChainBroken(log[1].version_id.clone())));

    let mut log = updated();
    log[0].proof.clear();
    assert_eq!(
        resolve_log(&log, None, None),
        Err(Error::ProofVerification(log[0].version_id.clone()))
    );

    let mut log = updated();
    log[1].proof[0].proof_value = Some("zNotASignature".to_string());
    assert_eq!(
        resolve_log(&log, None, None),
        Err(Error::ProofVerification(log[1].version_id.clone()))
    );

    let mut log = updated();
    log[1].proof[0].created = T3.to_string();
    assert_eq!(
        resolve_log(&log, None, None),
        Err(Error::ProofVerification(log[1].version_id.clone()))
    );

    let mut log = updated();
    log[1].proof[0].cryptosuite = "eddsa-rdfc-2022".to_string();
    assert!(matches!(resolve_log(&log, None, None), Err(Error::ProofVerification(_))));
}

#[test]
fn resolving_reports_faults_of_hand_made_entries() {
    // An entry that names another version of the method.
    let log = created();
    let mut parameters = Parameters::none();
    parameters.method = Some("did:webvh:0.1".to_string());
    parameters.update_keys = Some(vec![multikey(1)]);
    let entry = LogEntry::following(&log, log[0].state.clone(), parameters, T2).unwrap();
    let proof = entry.prove(&keyring(0), T2).unwrap();
    let mut longer = log.clone();
    longer.push(entry.signed(proof));
    let id = longer[1].version_id.clone();
    assert_eq!(checked(longer), Err(Error::MethodNotSupported(id)));

    // An entry made before the entry that it follows.
    let mut parameters = Parameters::none();
    parameters.update_keys = Some(vec![multikey(1)]);
    let entry =
        LogEntry::succeeding(&log, log[0].state.clone(), parameters, "2023-06-01T00:00:00Z")
            .unwrap();
    let proof = entry.prove(&keyring(0), T2).unwrap();
    let mut longer = log.clone();
    longer.push(entry.signed(proof));
    let id = longer[1].version_id.clone();
    assert_eq!(checked(longer), Err(Error::ChainBroken(id)));

    assert!(matches!(checked(vec![]), Err(Error::NotFound(_))));
    assert_eq!(checked(log.clone()), Ok(log));
}

#[test]
fn resolve_stops_where_asked() {
    let log = updated();
    let at = |version_id: Option<&str>, version_time: Option<&str>| ReplayOptions {
        version_id: version_id.map(str::to_string),
        version_time: version_time.map(str::to_string),
    };
    let first = resolve_log(&log, None, Some(&at(Some(&log[0].version_id), None))).unwrap();
    assert_eq!(first.metadata.version_id, log[0].version_id);
    assert_eq!(first.state, log[0].state);
    let second = resolve_log(&log, None, Some(&at(Some(&log[1].version_id), None))).unwrap();
    assert_eq!(second.metadata.version_id, log[1].version_id);
    assert!(matches!(
        resolve_log(&log, None, Some(&at(Some("3-zQm"), None))),
        Err(Error::NotFound(_))
    ));

    let early = resolve_log(&log, None, Some(&at(None, Some("2024-01-01T12:00:00Z")))).unwrap();
    assert_eq!(early.metadata.version_id, log[0].version_id);
    let exact = resolve_log(&log, None, Some(&at(None, Some(T2)))).unwrap();
    assert_eq!(exact.metadata.version_id, log[1].version_id);
    let late = resolve_log(&log, None, Some(&at(None, Some(T3)))).unwrap();
    assert_eq!(late.metadata.version_id, log[1].version_id);
    assert!(matches!(
        resolve_log(&log, None, Some(&at(None, Some("2023-01-01T00:00:00Z")))),
        Err(Error::NotFound(_))
    ));
    let all = resolve_log(&log, None, Some(&at(None, None))).unwrap();
    assert_eq!(all.metadata.version_id, log[1].version_id);

    // A fault behind the entry asked for is not looked at.
    let mut broken = log.clone();
    broken[1].proof.clear();
    assert!(resolve_log(&broken, None, Some(&at(Some(&log[0].version_id), None))).is_ok());
    assert!(resolve_log(&broken, None, None).is_err());
    assert!(matches!(resolve_log(&vec![], None, None), Err(Error::NotFound(_))));
}

#[test]
fn commitment_is_the_multihash_of_the_key_text() {
    assert_eq!(commitment(""), "zQmdfTbBqBPQ7VNxZEYEj14VmRuZBkqFbiwReogJgS1zR1n");
    assert_eq!(commitment("hello world"), "zQmaozNR7DZHQK1ZcU9p7QdrshMvXqWK6gpu5rmrkPdT3L4");
}

#[test]
fn state_holds_the_canonical_text_of_the_document() {
    let doc = document("did:web:example.com", "z6Mk");
    let state = State::of(&doc);
    assert_eq!(state.id, "did:web:example.com");
    assert_eq!(
        state.document,
        "{\"@context\":[\"https://www.w3.org/ns/did/v1\"],\
         \"authentication\":[\"did:web:example.com#key-0\"],\
         \"id\":\"did:web:example.com\",\
         \"service\":[{\"id\":\"did:webvh:{SCID}:example.com#whois\",\
         \"serviceEndpoint\":[\"https://example.com/.well-known/whois\"],\
         \"type\":\"LinkedVerifiablePresentation\"}],\
         \"verificationMethod\":[{\"controller\":\"did:web:example.com\",\
         \"id\":\"did:web:example.com#key-0\",\"publicKeyMultibase\":\"z6Mk\",\
         \"type\":\"Multikey\"}]}"
    );
    let replaced = state.replaced("{SCID}", "abc");
    assert!(replaced.document.contains("did:webvh:abc:example.com#whois"));
    assert_eq!(replaced.id, state.id);
    assert_eq!(state.copy(), state);
    let text: String = json_of(&state).into_iter().collect();
    assert_eq!(text, state.document);
    let mut out = vec!['x'];
    state.push_json(&mut out);
    assert_eq!(out.len(), 1 + state.document.chars().count());
}

/// The log of `updated`, deactivated: four entries.
fn ended() -> Vec<LogEntry> {
    deactivate(updated(), vec![multikey(2)], T3, &keyring(1), &keyring(2))
        .expect("should build deactivated document")
}

#[test]
fn versions_hold_the_hashes_of_their_entries() {
    let log = ended();
    let scid = log[0].parameters.scid.clone().unwrap();
    for i in 0..log.len() {
        assert_eq!(expected_version_id(&log, i), log[i].version_id);
        let parent = if i == 0 { scid.clone() } else { log[i - 1].version_id.clone() };
        let text = log[i].unsigned_text(&parent);
        assert!(text.starts_with("{\"parameters\":{"));
        assert!(!text.contains("\"proof\""));
        assert_eq!(log[i].version_id, format!("{}-{}", i + 1, hash_text(&text)));
        assert_eq!(check_entry(&log, i, None), None);
    }
    assert_eq!(version_id_of(12, "zQm"), "12-zQm");
}

#[test]
fn scid_is_the_hash_of_the_entry_with_placeholders() {
    let log = created();
    let scid = log[0].parameters.scid.clone().unwrap();
    let text = log[0].unproved_text(&scid);
    assert!(text.contains(",\"proof\":[],\"state\":{"));
    let preliminary = text.replace(&scid, SCID_PLACEHOLDER);
    assert!(preliminary.contains("\"scid\":\"{SCID}\""));
    assert!(preliminary.contains("\"versionId\":\"{SCID}\""));
    assert!(preliminary.contains("\"id\":\"did:webvh:{SCID}:credibil.io:issuers:example\""));
    assert_eq!(hash_text(&preliminary), scid);
    let digest = sha2::Sha256::digest(preliminary.as_bytes());
    let mut coded = vec![0x12, 0x20];
    coded.extend_from_slice(&digest);
    assert_eq!(multibase::encode(multibase::Base::Base58Btc, &coded), scid);
    assert_eq!(hash(preliminary.as_bytes()), scid);
}

#[test]
fn signers_are_update_keys_of_the_entry_before() {
    let log = ended();
    for i in 1..log.len() {
        let allowed = update_keys_of(&log, i - 1).expect("should have update keys");
        for proof in &log[i].proof {
            let signer = reference_key(&proof.verification_method).expect("should name a key");
            assert!(allowed.contains(&signer));
            assert!(proof.verify(&log[i]));
        }
    }
    assert_eq!(reference_key("did:key:z6Mk#z6Mk"), Some("z6Mk".to_string()));
    assert_eq!(reference_key("did:key:#"), Some(String::new()));
    for vm in ["", "did:key:", "did:key:z6Mk", "did:key:z6Mk#z6Mx", "did:web:a#a", "did:key:a#a#"] {
        assert_eq!(reference_key(vm), None, "{vm}");
    }
}

#[test]
fn update_keys_hash_to_the_commitments() {
    let log = ended();
    for i in 1..log.len() {
        let committed = next_key_hashes_of(&log, i - 1).cloned().unwrap_or_default();
        if committed.is_empty() {
            continue;
        }
        let keys = log[i].parameters.update_keys.clone().expect("should give update keys");
        let mut hashes = commitments(&keys);
        let mut committed = committed;
        hashes.sort();
        committed.sort();
        assert_eq!(hashes, committed);
    }
    assert_eq!(commitments(&vec![]), Vec::<String>::new());
    assert_eq!(commitments(&vec![multikey(1)]), vec![hash_text(&multikey(1))]);
}

#[test]
fn proofs_sign_the_two_digests() {
    let log = created();
    let entry = &log[0];
    let proof = &entry.proof[0];
    let options = proof.options_text();
    assert_eq!(
        options,
        format!(
            "{{\"created\":\"{T1}\",\"cryptosuite\":\"eddsa-jcs-2022\",\
             \"proofPurpose\":\"authentication\",\"type\":\"DataIntegrityProof\",\
             \"verificationMethod\":\"{}\"}}",
            proof.verification_method
        )
    );
    let mut expected = sha2::Sha256::digest(options.as_bytes()).to_vec();
    expected.extend_from_slice(&sha2::Sha256::digest(
        entry.unsigned_text(&entry.version_id).as_bytes(),
    ));
    assert_eq!(signing_input_of(entry, proof), expected);
    assert_eq!(expected.len(), 64);

    let (_, signature) = multibase::decode(proof.proof_value.as_ref().unwrap()).unwrap();
    assert_eq!(signature, keyring(0).try_sign(&expected).unwrap());
    let public: [u8; 32] = decode_multikey(&multikey(0)).unwrap().try_into().unwrap();
    let key = ed25519_dalek::VerifyingKey::from_bytes(&public).unwrap();
    let signature = ed25519_dalek::Signature::from_slice(&signature).unwrap();
    assert!(key.verify_strict(&expected, &signature).is_ok());
    assert!(proof.verify(entry));
    assert!(!proof.verify(&updated()[1]));
}

#[test]
fn canonical_text_survives_the_outside_parser() {
    for entry in ended() {
        let text: String = json_of(&entry).into_iter().collect();
        let value: serde_json::Value = serde_json::from_str(&text).expect("should be JSON");
        assert_eq!(serde_json::to_string(&value).unwrap(), text);
        let state: serde_json::Value = serde_json::from_str(&entry.state.document).unwrap();
        assert_eq!(serde_json::to_string(&state).unwrap(), entry.state.document);
        assert_eq!(value["versionId"], entry.version_id.as_str());
        assert_eq!(value["state"], state);
        assert_eq!(value.as_object().unwrap().len(), 5);
    }
}

#[test]
fn parameters_carry_over_until_they_are_given_anew() {
    let log = ended();
    assert_eq!(update_keys_of(&log, 0), Some(&vec![multikey(0)]));
    assert_eq!(update_keys_of(&log, 1), Some(&vec![multikey(1)]));
    assert_eq!(update_keys_of(&log, 2), Some(&vec![multikey(2)]));
    assert_eq!(update_keys_of(&log, 3), Some(&vec![]));
    assert_eq!(next_key_hashes_of(&log, 1), Some(&vec![commitment(&multikey(2))]));
    assert_eq!(next_key_hashes_of(&log, 3), Some(&vec![]));
    for i in 0..4 {
        assert!(!portable_of(&log, i));
        assert_eq!(witness_of(&log, i), Some(&witnesses().2));
        assert_eq!(deactivated_of(&log, i), i == 3);
    }
    let doc = document(&placeholder_did(), &multikey(0));
    let bare = create(&doc, vec![multikey(0)], &vec![], true, None, None, T1, &keyring(0)).unwrap();
    assert!(portable_of(&bare, 0));
    assert_eq!(next_key_hashes_of(&bare, 0), None);
    assert_eq!(witness_of(&bare, 0), None);
}

#[test]
fn first_fault_is_reported_in_order() {
    let mut log = updated();
    log[1].version_time = "2023-01-01T00:00:00Z".to_string();
    log[1].proof.clear();
    assert_eq!(check_entry(&log, 1, None), Some(Fault::Version));
    assert_eq!(check_entry(&log, 0, None), None);
    assert_eq!(check_entry(&created(), 0, Some(&vec![])), Some(Fault::Witness));
    assert_eq!(
        Fault::Time.report("2-zQm"),
        Error::ChainBroken("2-zQm".to_string())
    );
    assert_eq!(Fault::Place.report("v"), Error::PortabilityViolation("v".to_string()));
    assert_eq!(Fault::Method.report("v"), Error::MethodNotSupported("v".to_string()));
    assert_eq!(Fault::Rotation.report("v"), Error::PreRotationMismatch("v".to_string()));
}

#[test]
fn timestamps_are_ordered_as_texts() {
    assert!(timestamp(T1));
    for s in ["", "2024-01-01T00:00:00", "2024-01-01T00:00:00ZZ", "2024-01-01t00:00:00Z", "2024/01/01T00:00:00Z", "202a-01-01T00:00:00Z"] {
        assert!(!timestamp(s), "{s}");
    }
    assert!(precedes(T1, T2));
    assert!(precedes(T1, T1));
    assert!(!precedes(T2, T1));
    assert!(precedes("", "a"));
    assert!(precedes("a", "ab"));
    assert!(!precedes("ab", "a"));
    assert!(!precedes("b", "ab"));
}

#[test]
fn update_draft_gives_what_it_is_given_and_nothing_else() {
    let log = created();
    let doc = document(&did_of(&log), &multikey(1));
    let entry = LogEntry::update_draft(
        &log,
        &doc,
        Some(vec![multikey(1)]),
        Some(&vec![multikey(2), multikey(3)]),
        T2,
    )
    .expect("should make entry");
    let mut expected = Parameters::none();
    expected.update_keys = Some(vec![multikey(1)]);
    expected.next_key_hashes = Some(vec![commitment(&multikey(2)), commitment(&multikey(3))]);
    assert_eq!(entry.parameters, expected);
    assert_eq!(entry.state, State::of(&doc));
    assert_eq!(entry.version_time, T2);
    assert!(entry.proof.is_empty());
    assert_eq!(
        entry.version_id,
        format!("2-{}", hash_text(&entry.unsigned_text(&log[0].version_id)))
    );

    let bare = LogEntry::update_draft(&log, &doc, None, None, T2).expect("should make entry");
    assert_eq!(bare.parameters, Parameters::none());
    let stop = LogEntry::update_draft(&log, &doc, None, Some(&vec![]), T2).unwrap();
    assert_eq!(stop.parameters.next_key_hashes, Some(vec![]));

    assert_eq!(
        LogEntry::update_draft(&log, &doc, None, None, T1),
        Err(Error::ChainBroken(T1.to_string()))
    );
    assert!(matches!(
        LogEntry::update_draft(&vec![], &doc, None, None, T2),
        Err(Error::NotFound(_))
    ));
}

#[test]
fn deactivation_draft_says_whether_another_entry_follows() {
    let log = created();
    let (entry, more) =
        LogEntry::deactivation_draft(&log, vec![multikey(1)], T1).expect("should make entry");
    assert!(more);
    let mut expected = Parameters::none();
    expected.update_keys = Some(vec![multikey(1)]);
    expected.next_key_hashes = Some(vec![]);
    assert_eq!(entry.parameters, expected);
    assert_eq!(entry.state, log[0].state);
    assert_eq!(entry.version_time, T1);
    assert!(entry.version_id.starts_with("2-"));

    let mut longer = log.clone();
    longer.push(entry.clone().signed(entry.prove(&keyring(0), T1).unwrap()));
    let (last, more) =
        LogEntry::deactivation_draft(&longer, vec![multikey(3)], T2).expect("should make entry");
    assert!(!more);
    let mut expected = Parameters::none();
    expected.deactivated = Some(true);
    expected.update_keys = Some(vec![]);
    assert_eq!(last.parameters, expected);
    assert_eq!(last.state, log[0].state);
    assert!(last.version_id.starts_with("3-"));

    assert_eq!(
        LogEntry::deactivation_draft(&log, vec![], "now"),
        Err(Error::ChainBroken("now".to_string()))
    );
    assert!(matches!(
        LogEntry::deactivation_draft(&vec![], vec![], T1),
        Err(Error::NotFound(_))
    ));
}

#[test]
fn entries_that_end_a_log_are_made_at_the_time_given() {
    let log = deactivate(updated(), vec![multikey(2)], T3, &keyring(1), &keyring(2)).unwrap();
    assert_eq!(log.len(), 4);
    assert_eq!(log[2].version_time, T3);
    assert_eq!(log[3].version_time, T3);
    assert_eq!(log[2].state, log[1].state);
    assert_eq!(log[3].state, log[1].state);
    assert_eq!(log[1].parameters.next_key_hashes, Some(vec![commitment(&multikey(2))]));
    assert_eq!(log[1].parameters.method, None);
    assert_eq!(log[1].parameters.witness, None);
}
