use hybrid_identity::document::{Document, Jwk, MethodData, MethodScope, VerificationMethod};
use hybrid_identity::validator::{
    run_units, Credential, DecodedJptCredential, DidUrl, FailFast, IssuerKey, JptCredentialValidator,
    JptValidationOptions, LookupFailure, SignerContext, StructureFault, Subject, SubjectHolderRelationship,
    ValidationError,
};

const NOW: i64 = 1_700_000_000;

fn issuer_doc(id: &str) -> Document {
    let mut doc = Document::new(id.to_string());
    let m = VerificationMethod {
        fragment: "key-1".to_string(),
        controller: id.to_string(),
        type_: "JsonWebKey".to_string(),
        data: MethodData::PublicKeyJwk(Jwk { kid: Some("key-1".to_string()), json: "{\"kty\":\"OKP\"}".to_string() }),
    };
    doc.insert_method(m, MethodScope::AssertionMethod).unwrap();
    doc
}

fn options() -> JptValidationOptions {
    JptValidationOptions {
        method_id: None,
        method_scope: None,
        earliest_expiry_date: None,
        latest_issuance_date: None,
        subject_holder_relationship: None,
    }
}

fn credential() -> Credential {
    Credential {
        context: vec!["https://www.w3.org/2018/credentials/v1".to_string()],
        types: vec!["VerifiableCredential".to_string(), "UniversityDegree".to_string()],
        subjects: vec![Subject { id: Some("did:example:holder".to_string()), property_count: 1 }],
        issuer: "did:example:issuer".to_string(),
        issuance_date: NOW - 100,
        expiration_date: Some(NOW + 100),
        non_transferable: None,
    }
}

fn key() -> IssuerKey {
    IssuerKey {
        method_id: DidUrl { did: "did:example:issuer".to_string(), fragment: Some("key-1".to_string()) },
        issuer_index: 0,
        jwk: Jwk { kid: None, json: "{}".to_string() },
        controller: "did:example:issuer".to_string(),
    }
}

fn decoded(c: Credential) -> DecodedJptCredential {
    DecodedJptCredential { credential: c, custom_claims: None }
}

#[test]
fn fail_fast_first_error() {
    let mut c = credential();
    c.issuance_date = NOW + 1000;
    c.types = vec!["UniversityDegree".to_string()];
    let r = JptCredentialValidator::validate(&key(), Ok(decoded(c)), &options(), NOW, FailFast::FirstError);
    let errors = r.err().unwrap().validation_errors;
    assert_eq!(errors.len(), 1);
    assert!(matches!(errors[0], ValidationError::IssuanceDate));
}

#[test]
fn fail_fast_all_errors() {
    let mut c = credential();
    c.issuance_date = NOW + 1000;
    c.types = vec!["UniversityDegree".to_string()];
    let r = JptCredentialValidator::validate(&key(), Ok(decoded(c)), &options(), NOW, FailFast::AllErrors);
    let errors = r.err().unwrap().validation_errors;
    assert_eq!(errors.len(), 2);
    assert!(matches!(errors[0], ValidationError::IssuanceDate));
    assert!(matches!(errors[1], ValidationError::CredentialStructure(StructureFault::MissingBaseType)));
}

#[test]
fn valid_credential_passes() {
    let r = JptCredentialValidator::validate(&key(), Ok(decoded(credential())), &options(), NOW, FailFast::AllErrors);
    assert_eq!(r.unwrap().credential.issuer, "did:example:issuer");
}

#[test]
fn proof_failure_is_reported_alone() {
    let r = JptCredentialValidator::validate(
        &key(),
        Err(ValidationError::JwpProofVerification("bad proof".to_string())),
        &options(),
        NOW,
        FailFast::AllErrors,
    );
    let errors = r.err().unwrap().validation_errors;
    assert_eq!(errors.len(), 1);
    assert!(matches!(errors[0], ValidationError::JwpProofVerification(_)));
}

#[test]
fn issuer_mismatch() {
    let mut c = credential();
    c.issuer = "did:example:someone".to_string();
    c.issuance_date = NOW + 1000;
    let r = JptCredentialValidator::validate(&key(), Ok(decoded(c)), &options(), NOW, FailFast::AllErrors);
    let errors = r.err().unwrap().validation_errors;
    assert_eq!(errors.len(), 1);
    assert!(matches!(errors[0], ValidationError::IdentifierMismatch(SignerContext::Issuer)));
}

#[test]
fn issuer_must_be_method_controller() {
    let mut k = key();
    k.controller = "did:example:controller".to_string();
    let r = JptCredentialValidator::validate(&k, Ok(decoded(credential())), &options(), NOW, FailFast::AllErrors);
    let errors = r.err().unwrap().validation_errors;
    assert_eq!(errors.len(), 1);
    assert!(matches!(errors[0], ValidationError::IdentifierMismatch(SignerContext::Issuer)));
    let mut c = credential();
    c.issuer = "did:example:controller".to_string();
    assert!(JptCredentialValidator::validate(&k, Ok(decoded(c)), &options(), NOW, FailFast::AllErrors).is_ok());
}

#[test]
fn expiry_and_explicit_bounds() {
    let mut c = credential();
    c.expiration_date = Some(NOW - 1);
    let errors = run_units(&c, &options(), NOW, FailFast::AllErrors);
    assert_eq!(errors.len(), 1);
    assert!(matches!(errors[0], ValidationError::ExpirationDate));
    let mut o = options();
    o.earliest_expiry_date = Some(NOW - 10);
    o.latest_issuance_date = Some(NOW - 200);
    let errors = run_units(&c, &o, NOW, FailFast::AllErrors);
    assert_eq!(errors.len(), 1);
    assert!(matches!(errors[0], ValidationError::IssuanceDate));
    c.expiration_date = None;
    assert!(run_units(&c, &options(), NOW, FailFast::AllErrors).is_empty());
}

#[test]
fn structure_faults() {
    let mut c = credential();
    c.context = vec!["https://example.org".to_string()];
    let e = run_units(&c, &options(), NOW, FailFast::AllErrors);
    assert!(matches!(e[0], ValidationError::CredentialStructure(StructureFault::MissingBaseContext)));
    let mut c = credential();
    c.subjects = vec![];
    let e = run_units(&c, &options(), NOW, FailFast::AllErrors);
    assert!(matches!(e[0], ValidationError::CredentialStructure(StructureFault::MissingSubject)));
    let mut c = credential();
    c.subjects = vec![Subject { id: None, property_count: 0 }];
    let e = run_units(&c, &options(), NOW, FailFast::AllErrors);
    assert!(matches!(e[0], ValidationError::CredentialStructure(StructureFault::InvalidSubject)));
}

#[test]
fn subject_holder_relationship() {
    let c = credential();
    let mut o = options();
    o.subject_holder_relationship = Some(("did:example:holder".to_string(), SubjectHolderRelationship::AlwaysSubject));
    assert!(run_units(&c, &o, NOW, FailFast::AllErrors).is_empty());
    o.subject_holder_relationship = Some(("did:example:other".to_string(), SubjectHolderRelationship::AlwaysSubject));
    let e = run_units(&c, &o, NOW, FailFast::AllErrors);
    assert!(matches!(e[0], ValidationError::SubjectHolderRelationship));
    o.subject_holder_relationship = Some(("did:example:other".to_string(), SubjectHolderRelationship::SubjectOnNonTransferable));
    assert!(run_units(&c, &o, NOW, FailFast::AllErrors).is_empty());
    let mut c2 = credential();
    c2.non_transferable = Some(true);
    assert_eq!(run_units(&c2, &o, NOW, FailFast::AllErrors).len(), 1);
    o.subject_holder_relationship = Some(("did:example:other".to_string(), SubjectHolderRelationship::Any));
    assert!(run_units(&c2, &o, NOW, FailFast::AllErrors).is_empty());
}

#[test]
fn kid_did_mismatch() {
    let issuers = vec![issuer_doc("did:example:other")];
    let r = JptCredentialValidator::locate_issuer_key(Some("did:example:issuer#key-1"), &issuers, &options());
    assert!(matches!(r, Err(ValidationError::DocumentMismatch(SignerContext::Issuer))));
}

#[test]
fn issuer_key_found() {
    let issuers = vec![issuer_doc("did:example:other"), issuer_doc("did:example:issuer")];
    let k = JptCredentialValidator::locate_issuer_key(Some("did:example:issuer#key-1"), &issuers, &options()).unwrap();
    assert_eq!(k.issuer_index, 1);
    assert_eq!(k.method_id.did, "did:example:issuer");
    assert_eq!(k.method_id.fragment.as_deref(), Some("key-1"));
    assert_eq!(k.jwk.json, "{\"kty\":\"OKP\"}");
    assert_eq!(k.controller, "did:example:issuer");
}

#[test]
fn issuer_key_lookup_failures() {
    let issuers = vec![issuer_doc("did:example:issuer")];
    let r = JptCredentialValidator::locate_issuer_key(None, &issuers, &options());
    assert!(matches!(r, Err(ValidationError::MethodDataLookup { failure: LookupFailure::MissingKid, signer_ctx: SignerContext::Issuer })));
    let r = JptCredentialValidator::locate_issuer_key(Some("key-1"), &issuers, &options());
    assert!(matches!(r, Err(ValidationError::MethodDataLookup { failure: LookupFailure::InvalidKid, .. })));
    let r = JptCredentialValidator::locate_issuer_key(Some("did:example:issuer#key-2"), &issuers, &options());
    assert!(matches!(r, Err(ValidationError::MethodDataLookup { failure: LookupFailure::MissingJwk, .. })));
    let mut o = options();
    o.method_scope = Some(MethodScope::Authentication);
    let r = JptCredentialValidator::locate_issuer_key(Some("did:example:issuer#key-1"), &issuers, &o);
    assert!(matches!(r, Err(ValidationError::MethodDataLookup { failure: LookupFailure::MissingJwk, .. })));
    o.method_scope = Some(MethodScope::AssertionMethod);
    assert!(JptCredentialValidator::locate_issuer_key(Some("did:example:issuer#key-1"), &issuers, &o).is_ok());
}

#[test]
fn method_id_option_overrides_kid() {
    let issuers = vec![issuer_doc("did:example:issuer")];
    let mut o = options();
    o.method_id = Some(DidUrl::parse("did:example:issuer#key-1").unwrap());
    let k = JptCredentialValidator::locate_issuer_key(Some("not a did"), &issuers, &o).unwrap();
    assert_eq!(k.issuer_index, 0);
}

#[test]
fn did_url_parse() {
    let u = DidUrl::parse("did:example:123#k1").unwrap();
    assert_eq!(u.did, "did:example:123");
    assert_eq!(u.fragment.as_deref(), Some("k1"));
    let u = DidUrl::parse("did:example:123").unwrap();
    assert_eq!(u.fragment, None);
    assert!(DidUrl::parse("urn:x").is_none());
    assert!(DidUrl::parse("did:").is_none());
    assert!(DidUrl::parse("did:example").is_none());
    assert!(DidUrl::parse("did::123").is_none());
    assert!(DidUrl::parse("did:example:#k1").is_none());
    assert!(DidUrl::parse("did:example:a:b#k1").is_some());
}

#[test]
fn kid_without_did_syntax_is_invalid() {
    let issuers: Vec<Document> = vec![];
    let r = JptCredentialValidator::locate_issuer_key(Some("did:"), &issuers, &options());
    assert!(matches!(r, Err(ValidationError::MethodDataLookup { failure: LookupFailure::InvalidKid, .. })));
}
