use hybrid_identity::header::JwsSignatureOptions;
use hybrid_identity::signer::JwsSigningPlan;
use hybrid_identity::alg::CompositeAlgId;
use hybrid_identity::document::{Document, Jwk, MethodData, MethodScope, VerificationMethod};
use hybrid_identity::handle::{pair_handles, split_paired_handle};
use hybrid_identity::keygen::{GeneratedKey, KeyGenAction, KeyGenEvent, KeyGenMachine, KeyManagerError};
use hybrid_identity::method::{method_fingerprint, resolve_fragment};

/// An in-memory key store and key handle store that can be told to fail.
struct Stores {
    keys: Vec<String>,
    handles: Vec<(Vec<u8>, String)>,
    next: usize,
    fail_store: bool,
    fail_delete: bool,
    kids: bool,
}

impl Stores {
    fn new() -> Stores {
        Stores { keys: Vec::new(), handles: Vec::new(), next: 0, fail_store: false, fail_delete: false, kids: false }
    }

    fn generate(&mut self, prefix: &str) -> GeneratedKey {
        self.next += 1;
        let handle = format!("{}-{}", prefix, self.next);
        self.keys.push(handle.clone());
        let kid = if self.kids { Some(format!("kid{}", self.next)) } else { None };
        GeneratedKey { handle, jwk: Jwk { kid, json: format!("{{\"x\":\"{}\"}}", prefix) } }
    }

    /// Runs the machine to its end and returns the result and the actions seen.
    fn run(&mut self, doc: &mut Document, fragment: Option<&str>) -> (Result<String, KeyManagerError>, Vec<String>) {
        let owned = std::mem::replace(doc, Document::new(String::new()));
        let (mut m, mut action) = KeyGenMachine::new(owned, CompositeAlgId::IdMldsa44Ed25519Sha512, fragment.map(|f| f.to_string()), MethodScope::VerificationMethod);
        let mut seen = Vec::new();
        loop {
            let event = match action {
                KeyGenAction::GenerateClassical { key_type, alg } => {
                    seen.push(format!("classical {} {}", key_type, alg));
                    KeyGenEvent::ClassicalGenerated(Ok(self.generate("classical")))
                }
                KeyGenAction::GeneratePq { key_type, alg } => {
                    seen.push(format!("pq {} {}", key_type, alg));
                    KeyGenEvent::PqGenerated(Ok(self.generate("pq")))
                }
                KeyGenAction::StoreHandle { fingerprint, paired_handle } => {
                    seen.push(format!("store {}", paired_handle));
                    if self.fail_store {
                        KeyGenEvent::HandleStored(Err("store down".to_string()))
                    } else {
                        self.handles.push((fingerprint, paired_handle));
                        KeyGenEvent::HandleStored(Ok(()))
                    }
                }
                KeyGenAction::DeleteKey { handle } => {
                    seen.push(format!("delete {}", handle));
                    if self.fail_delete {
                        KeyGenEvent::KeyDeleted(Err("delete refused".to_string()))
                    } else {
                        self.keys.retain(|k| k != &handle);
                        KeyGenEvent::KeyDeleted(Ok(()))
                    }
                }
                KeyGenAction::Finish(r) => {
                    *doc = m.into_document();
                    return (r, seen);
                }
            };
            assert!(m.accepts(&event));
            let (m2, a2) = m.step(event);
            m = m2;
            action = a2;
        }
    }
}

fn plain_method(fragment: &str) -> VerificationMethod {
    VerificationMethod {
        fragment: fragment.to_string(),
        controller: "did:example:123".to_string(),
        type_: "JsonWebKey".to_string(),
        data: MethodData::PublicKeyJwk(Jwk { kid: None, json: "{}".to_string() }),
    }
}

#[test]
fn generate_with_explicit_fragment() {
    let mut doc = Document::new("did:example:123".to_string());
    let mut stores = Stores::new();
    let (r, seen) = stores.run(&mut doc, Some("#k1"));
    assert_eq!(r.unwrap(), "k1");
    assert_eq!(seen, vec!["classical Ed25519 EdDSA", "pq ML-DSA ML-DSA-44", "store classical-1~pq-2"]);
    let m = doc.resolve_method("k1", None).unwrap();
    assert_eq!(m.type_, "CompositeSignaturePublicKey");
    assert_eq!(m.controller, "did:example:123");
    match &m.data {
        MethodData::Composite(c) => {
            assert_eq!(c.alg_id, CompositeAlgId::IdMldsa44Ed25519Sha512);
            assert_eq!(c.classical.json, "{\"x\":\"classical\"}");
            assert_eq!(c.pq.json, "{\"x\":\"pq\"}");
        }
        _ => panic!("not composite"),
    }
    assert_eq!(stores.handles.len(), 1);
    assert_eq!(stores.handles[0].0, method_fingerprint(m));
    assert_eq!(stores.handles[0].1, "classical-1~pq-2");
    assert_eq!(stores.keys, vec!["classical-1", "pq-2"]);
}

#[test]
fn generate_fragment_from_both_kids() {
    let mut doc = Document::new("did:example:123".to_string());
    let mut stores = Stores::new();
    stores.kids = true;
    let (r, _) = stores.run(&mut doc, None);
    assert_eq!(r.unwrap(), "kid1~kid2");
    assert!(doc.resolve_method("kid1~kid2", None).is_some());
}

#[test]
fn generate_without_fragment_or_kid_rolls_back() {
    let mut doc = Document::new("did:example:123".to_string());
    let mut stores = Stores::new();
    let (r, seen) = stores.run(&mut doc, None);
    assert!(matches!(r, Err(KeyManagerError::MissingFragment)));
    assert_eq!(seen[2..], ["delete pq-2".to_string(), "delete classical-1".to_string()]);
    assert!(stores.keys.is_empty());
    assert!(stores.handles.is_empty());
}

#[test]
fn rollback_on_duplicate_fragment() {
    let mut doc = Document::new("did:example:123".to_string());
    doc.insert_method(plain_method("dup"), MethodScope::VerificationMethod).unwrap();
    let mut stores = Stores::new();
    stores.keys.push("existing".to_string());
    let keys_before = stores.keys.len();
    let (r, seen) = stores.run(&mut doc, Some("#dup"));
    assert!(matches!(r, Err(KeyManagerError::FragmentAlreadyExists)));
    assert_eq!(stores.keys.len(), keys_before);
    assert!(stores.handles.is_empty());
    assert_eq!(seen[2..], ["delete pq-2".to_string(), "delete classical-1".to_string()]);
    assert_eq!(doc.resolve_method("dup", None).unwrap().type_, "JsonWebKey");
}

#[test]
fn rollback_when_handle_store_fails() {
    let mut doc = Document::new("did:example:123".to_string());
    let mut stores = Stores::new();
    stores.fail_store = true;
    let (r, _) = stores.run(&mut doc, Some("k1"));
    match r {
        Err(KeyManagerError::KeyIdStorage(msg)) => assert_eq!(msg, "store down"),
        _ => panic!("unexpected result"),
    }
    assert!(doc.resolve_method("k1", None).is_none());
    assert!(stores.keys.is_empty());
    assert!(stores.handles.is_empty());
}

#[test]
fn failed_deletion_is_reported() {
    let mut doc = Document::new("did:example:123".to_string());
    let mut stores = Stores::new();
    stores.fail_store = true;
    stores.fail_delete = true;
    let (r, _) = stores.run(&mut doc, Some("k1"));
    match r {
        Err(KeyManagerError::UndoFailed { source, undo_error }) => {
            assert_eq!(undo_error, "delete refused");
            assert!(matches!(*source, KeyManagerError::UndoFailed { .. }));
        }
        _ => panic!("unexpected result"),
    }
    assert!(doc.resolve_method("k1", None).is_none());
}

#[test]
fn classical_generation_failure_ends_at_once() {
    let doc = Document::new("did:example:123".to_string());
    let (m, _) = KeyGenMachine::new(doc, CompositeAlgId::IdMldsa65Ed25519Sha512, None, MethodScope::Authentication);
    let (_, a) = m.step(KeyGenEvent::ClassicalGenerated(Err("no entropy".to_string())));
    assert!(matches!(a, KeyGenAction::Finish(Err(KeyManagerError::KeyStorage(_)))));
}

#[test]
fn pq_generation_failure_deletes_classical_key() {
    let doc = Document::new("did:example:123".to_string());
    let (m, _) = KeyGenMachine::new(doc, CompositeAlgId::IdMldsa65Ed25519Sha512, None, MethodScope::Authentication);
    let key = GeneratedKey { handle: "classical-9".to_string(), jwk: Jwk { kid: None, json: "{}".to_string() } };
    let (m, a) = m.step(KeyGenEvent::ClassicalGenerated(Ok(key)));
    match &a {
        KeyGenAction::GeneratePq { key_type, alg } => {
            assert_eq!(key_type, "ML-DSA");
            assert_eq!(alg, "ML-DSA-65");
        }
        _ => panic!("expected post-quantum generation"),
    }
    assert!(!m.accepts(&KeyGenEvent::HandleStored(Ok(()))));
    let (m, a) = m.step(KeyGenEvent::PqGenerated(Err("busy".to_string())));
    match a {
        KeyGenAction::DeleteKey { handle } => assert_eq!(handle, "classical-9"),
        _ => panic!("expected deletion"),
    }
    let (m, a) = m.step(KeyGenEvent::KeyDeleted(Ok(())));
    assert!(matches!(a, KeyGenAction::Finish(Err(KeyManagerError::KeyStorage(_)))));
    assert_eq!(m.document().id(), "did:example:123");
}

#[test]
fn fragment_resolution() {
    assert_eq!(resolve_fragment(Some("#a"), Some("x"), Some("y")).unwrap(), "a");
    assert_eq!(resolve_fragment(Some("a"), None, None).unwrap(), "a");
    assert_eq!(resolve_fragment(None, Some("x"), Some("y")).unwrap(), "x~y");
    assert_eq!(resolve_fragment(None, Some("x"), None).unwrap(), "x");
    assert_eq!(resolve_fragment(None, None, Some("#y")).unwrap(), "y");
    assert!(resolve_fragment(None, None, None).is_none());
}

#[test]
fn paired_handles_round_trip() {
    let p = pair_handles("abc", "d~e");
    assert_eq!(p, "abc~d~e");
    assert_eq!(split_paired_handle(&p), Some(("abc".to_string(), "d~e".to_string())));
    assert_eq!(split_paired_handle("nohandle"), None);
}

#[test]
fn fingerprint_is_deterministic_and_distinguishes_methods() {
    let a = plain_method("a");
    let b = plain_method("b");
    assert_eq!(method_fingerprint(&a), method_fingerprint(&plain_method("a")));
    assert_ne!(method_fingerprint(&a), method_fingerprint(&b));
    assert_eq!(method_fingerprint(&a).len(), 64);
}

#[test]
fn document_insert_remove() {
    let mut doc = Document::new("did:example:1".to_string());
    assert_eq!(doc.id(), "did:example:1");
    doc.insert_method(plain_method("a"), MethodScope::Authentication).unwrap();
    assert!(doc.insert_method(plain_method("a"), MethodScope::Authentication).is_err());
    assert!(doc.resolve_method("a", Some(MethodScope::KeyAgreement)).is_none());
    assert!(doc.resolve_method("a", Some(MethodScope::Authentication)).is_some());
    assert_eq!(doc.remove_method("a").unwrap().fragment, "a");
    assert!(doc.remove_method("a").is_none());
}

#[test]
fn generate_then_sign_hello() {
    let mut doc = Document::new("did:example:123".to_string());
    let mut stores = Stores::new();
    let (r, _) = stores.run(&mut doc, Some("#k1"));
    assert_eq!(r.unwrap(), "k1");
    let options = JwsSignatureOptions {
        kid: None,
        b64: None,
        typ: None,
        cty: None,
        url: None,
        nonce: None,
        detached_payload: false,
        custom_header_parameters: None,
    };
    let plan = doc.prepare_jws("#k1", b"hello", &options).unwrap();
    let paired = &stores.handles.iter().find(|(fp, _)| *fp == plan.method_fingerprint).unwrap().1;
    let (classical, pq) = JwsSigningPlan::key_handles(paired).unwrap();
    assert!(stores.keys.contains(&classical));
    assert!(stores.keys.contains(&pq));
    let jws = plan.finish(&[7u8; 64], &[9u8; 2420]);
    let last = jws.rsplit('.').next().unwrap();
    let sig = base64::Engine::decode(&base64::engine::general_purpose::URL_SAFE_NO_PAD, last).unwrap();
    assert_eq!(sig.len(), 2484);
}

#[test]
fn handle_with_separator_is_refused() {
    let doc = Document::new("did:example:123".to_string());
    let (m, _) = KeyGenMachine::new(doc, CompositeAlgId::IdMldsa44Ed25519Sha512, Some("k1".to_string()), MethodScope::VerificationMethod);
    let key = GeneratedKey { handle: "classical~1".to_string(), jwk: Jwk { kid: None, json: "{}".to_string() } };
    let (m, a) = m.step(KeyGenEvent::ClassicalGenerated(Ok(key)));
    match a {
        KeyGenAction::DeleteKey { handle } => assert_eq!(handle, "classical~1"),
        _ => panic!("expected deletion"),
    }
    let (m, a) = m.step(KeyGenEvent::KeyDeleted(Ok(())));
    assert!(matches!(a, KeyGenAction::Finish(Err(KeyManagerError::InvalidKeyHandle))));
    assert!(m.document().resolve_method("k1", None).is_none());
}

#[test]
fn pq_handle_with_separator_rolls_back_both() {
    let doc = Document::new("did:example:123".to_string());
    let (m, _) = KeyGenMachine::new(doc, CompositeAlgId::IdMldsa44Ed25519Sha512, Some("k1".to_string()), MethodScope::VerificationMethod);
    let key = |h: &str| GeneratedKey { handle: h.to_string(), jwk: Jwk { kid: None, json: "{}".to_string() } };
    let (m, _) = m.step(KeyGenEvent::ClassicalGenerated(Ok(key("classical-1"))));
    let (m, a) = m.step(KeyGenEvent::PqGenerated(Ok(key("pq~2"))));
    assert!(matches!(&a, KeyGenAction::DeleteKey { handle } if handle == "pq~2"));
    let (m, a) = m.step(KeyGenEvent::KeyDeleted(Ok(())));
    assert!(matches!(&a, KeyGenAction::DeleteKey { handle } if handle == "classical-1"));
    let (_, a) = m.step(KeyGenEvent::KeyDeleted(Ok(())));
    assert!(matches!(a, KeyGenAction::Finish(Err(KeyManagerError::InvalidKeyHandle))));
}
