use vstd::prelude::*;
use crate::document::{Document, Jwk, MethodData, MethodScope};
use crate::header::opt_text;
use crate::signer::{copy_jwk, jwk_view};
use crate::text::{split_once, split_once_of, str_eq};

verus! {

/// Whether validation stops at the first failing unit or runs them all.
#[derive(Clone, Copy, Debug, PartialEq, Eq, Structural)]
pub enum FailFast {
    FirstError,
    AllErrors,
}

#[derive(Clone, Copy, Debug, PartialEq, Eq, Structural)]
pub enum SignerContext {
    Issuer,
    Holder,
}

/// How the holder of a credential must relate to its subject.
#[derive(Clone, Copy, Debug, PartialEq, Eq, Structural)]
pub enum SubjectHolderRelationship {
    AlwaysSubject,
    SubjectOnNonTransferable,
    Any,
}

/// Why the issuer's public key could not be found.
#[derive(Clone, Copy, Debug, PartialEq, Eq, Structural)]
pub enum LookupFailure {
    /// The protected header carries no `kid`.
    MissingKid,
    /// The `kid` is not a DID URL.
    InvalidKid,
    /// No method identified by the `kid` holds a JWK.
    MissingJwk,
}

#[derive(Debug)]
pub enum StructureFault {
    MissingBaseContext,
    MissingBaseType,
    MissingSubject,
    InvalidSubject,
    /// The claims could not be read as a credential.
    ClaimsDeserialization(String),
}

#[derive(Debug)]
pub enum ValidationError {
    JwpDecoding(String),
    JwpProofVerification(String),
    MethodDataLookup { failure: LookupFailure, signer_ctx: SignerContext },
    DocumentMismatch(SignerContext),
    IdentifierMismatch(SignerContext),
    IssuanceDate,
    ExpirationDate,
    CredentialStructure(StructureFault),
    SubjectHolderRelationship,
}

/// Every error that validation reported.
#[derive(Debug)]
pub struct CompoundValidationError {
    pub validation_errors: Vec<ValidationError>,
}

/// A credential subject: its id, if any, and how many other properties it has.
pub struct Subject {
    pub id: Option<String>,
    pub property_count: usize,
}

/// The parts of a credential that validation reads. Dates are Unix seconds.
pub struct Credential {
    pub context: Vec<String>,
    pub types: Vec<String>,
    pub subjects: Vec<Subject>,
    pub issuer: String,
    pub issuance_date: i64,
    pub expiration_date: Option<i64>,
    pub non_transferable: Option<bool>,
}

/// A credential whose proof was verified, with its custom claims as JSON text.
pub struct DecodedJptCredential {
    pub credential: Credential,
    pub custom_claims: Option<String>,
}

/// A DID URL: the DID, and the fragment after `#`, if any.
pub struct DidUrl {
    pub did: String,
    pub fragment: Option<String>,
}

pub struct JptValidationOptions {
    /// The method to verify with; else the `kid` of the protected header.
    pub method_id: Option<DidUrl>,
    pub method_scope: Option<MethodScope>,
    pub earliest_expiry_date: Option<i64>,
    pub latest_issuance_date: Option<i64>,
    /// The holder's URL and the relationship it must have to the subject.
    pub subject_holder_relationship: Option<(String, SubjectHolderRelationship)>,
}

/// The issuer's public key, found through the method id.
pub struct IssuerKey {
    pub method_id: DidUrl,
    pub issuer_index: usize,
    pub jwk: Jwk,
    /// The DID that controls the resolved method.
    pub controller: String,
}

pub open spec fn base_context() -> Seq<char> {
    "https://www.w3.org/2018/credentials/v1"@
}

pub open spec fn base_type() -> Seq<char> {
    "VerifiableCredential"@
}

pub open spec fn did_url_view(u: DidUrl) -> (Seq<char>, Option<Seq<char>>) {
    (u.did@, opt_text(u.fragment))
}

/// The first structural fault of a credential, if any.
pub open spec fn structure_fault_of(c: Credential) -> Option<StructureFault> {
    if c.context@.len() == 0 || c.context@[0]@ != base_context() {
        Some(StructureFault::MissingBaseContext)
    } else if !(exists|i: int| 0 <= i < c.types@.len() && (#[trigger] c.types@[i])@ == base_type()) {
        Some(StructureFault::MissingBaseType)
    } else if c.subjects@.len() == 0 {
        Some(StructureFault::MissingSubject)
    } else if exists|i: int| 0 <= i < c.subjects@.len() && (#[trigger] c.subjects@[i]).id is None && c.subjects@[i].property_count == 0 {
        Some(StructureFault::InvalidSubject)
    } else {
        None
    }
}

/// The holder is the credential's only subject.
pub open spec fn holder_is_subject(c: Credential, holder: Seq<char>) -> bool {
    c.subjects@.len() == 1 && opt_text(c.subjects@[0].id) == Some(holder)
}

pub open spec fn relationship_holds(c: Credential, holder: Seq<char>, rel: SubjectHolderRelationship) -> bool {
    match rel {
        SubjectHolderRelationship::AlwaysSubject => holder_is_subject(c, holder),
        SubjectHolderRelationship::SubjectOnNonTransferable => holder_is_subject(c, holder) || c.non_transferable != Some(true),
        SubjectHolderRelationship::Any => true,
    }
}

pub open spec fn bound_or(o: Option<i64>, now: i64) -> i64 {
    match o {
        Some(t) => t,
        None => now,
    }
}

/// The outcome of validation unit `k`, in the fixed order: issuance date,
/// expiration date, structure, subject-holder relationship.
pub open spec fn unit_result(k: int, c: Credential, o: JptValidationOptions, now: i64) -> Option<ValidationError> {
    if k == 0 {
        if c.issuance_date <= bound_or(o.latest_issuance_date, now) {
            None
        } else {
            Some(ValidationError::IssuanceDate)
        }
    } else if k == 1 {
        match c.expiration_date {
            Some(e) => if e >= bound_or(o.earliest_expiry_date, now) {
                None
            } else {
                Some(ValidationError::ExpirationDate)
            },
            None => None,
        }
    } else if k == 2 {
        match structure_fault_of(c) {
            Some(f) => Some(ValidationError::CredentialStructure(f)),
            None => None,
        }
    } else {
        match o.subject_holder_relationship {
            Some((holder, rel)) => if relationship_holds(c, holder@, rel) {
                None
            } else {
                Some(ValidationError::SubjectHolderRelationship)
            },
            None => None,
        }
    }
}

pub open spec fn unit_count() -> int {
    4
}

pub open spec fn as_seq(r: Option<ValidationError>) -> Seq<ValidationError> {
    match r {
        Some(e) => seq![e],
        None => seq![],
    }
}

/// The errors of the units `0..k`, in unit order.
pub open spec fn failures_upto(k: int, c: Credential, o: JptValidationOptions, now: i64) -> Seq<ValidationError>
    decreases k,
{
    if k <= 0 {
        seq![]
    } else {
        failures_upto(k - 1, c, o, now) + as_seq(unit_result(k - 1, c, o, now))
    }
}

/// The errors of all units that fail, in unit order.
pub open spec fn failures(c: Credential, o: JptValidationOptions, now: i64) -> Seq<ValidationError> {
    failures_upto(unit_count(), c, o, now)
}

/// The errors reported under a fail-fast policy.
pub open spec fn reported(c: Credential, o: JptValidationOptions, now: i64, ff: FailFast) -> Seq<ValidationError> {
    let all = failures(c, o, now);
    match ff {
        FailFast::AllErrors => all,
        FailFast::FirstError => if all.len() == 0 {
            all
        } else {
            seq![all[0]]
        },
    }
}

proof fn lemma_failures_prefix_empty(k: int, c: Credential, o: JptValidationOptions, now: i64)
    requires
        0 <= k,
        forall|j: int| 0 <= j < k ==> unit_result(j, c, o, now) is None,
    ensures
        failures_upto(k, c, o, now).len() == 0,
    decreases k,
{
    if k > 0 {
        lemma_failures_prefix_empty(k - 1, c, o, now);
    }
}

proof fn lemma_failures_first(k: int, n: int, c: Credential, o: JptValidationOptions, now: i64)
    requires
        0 <= k < n,
        unit_result(k, c, o, now) is Some,
        forall|j: int| 0 <= j < k ==> unit_result(j, c, o, now) is None,
    ensures
        failures_upto(n, c, o, now).len() >= 1,
        failures_upto(n, c, o, now)[0] == unit_result(k, c, o, now).unwrap(),
    decreases n,
{
    if n == k + 1 {
        lemma_failures_prefix_empty(k, c, o, now);
    } else {
        lemma_failures_first(k, n - 1, c, o, now);
    }
}

/// Under `FirstError`, when unit `k` is the first unit that fails, exactly
/// one error is reported, and it is unit `k`'s.
pub proof fn lemma_first_error_reported(k: int, c: Credential, o: JptValidationOptions, now: i64)
    requires
        0 <= k < unit_count(),
        unit_result(k, c, o, now) is Some,
        forall|j: int| 0 <= j < k ==> unit_result(j, c, o, now) is None,
    ensures
        reported(c, o, now, FailFast::FirstError) == seq![unit_result(k, c, o, now).unwrap()],
{
    lemma_failures_first(k, unit_count(), c, o, now);
}

/// Under `AllErrors`, an error is reported exactly when some unit fails with it.
pub proof fn lemma_all_errors_reported(c: Credential, o: JptValidationOptions, now: i64, e: ValidationError)
    ensures
        reported(c, o, now, FailFast::AllErrors).contains(e) <==> exists|k: int| 0 <= k < unit_count() && unit_result(k, c, o, now) == Some(e),
{
    lemma_failures_contains(unit_count(), c, o, now, e);
}

proof fn lemma_failures_contains(n: int, c: Credential, o: JptValidationOptions, now: i64, e: ValidationError)
    requires
        0 <= n,
    ensures
        failures_upto(n, c, o, now).contains(e) <==> exists|k: int| 0 <= k < n && unit_result(k, c, o, now) == Some(e),
    decreases n,
{
    if n > 0 {
        lemma_failures_contains(n - 1, c, o, now, e);
        let prev = failures_upto(n - 1, c, o, now);
        let last = as_seq(unit_result(n - 1, c, o, now));
        if (prev + last).contains(e) {
            let i = choose|i: int| 0 <= i < (prev + last).len() && (prev + last)[i] == e;
            if i < prev.len() {
                assert(prev[i] == e);
            } else {
                assert(unit_result(n - 1, c, o, now) == Some(e));
            }
        }
        if exists|k: int| 0 <= k < n && unit_result(k, c, o, now) == Some(e) {
            let k = choose|k: int| 0 <= k < n && unit_result(k, c, o, now) == Some(e);
            if k < n - 1 {
                let i = choose|i: int| 0 <= i < prev.len() && prev[i] == e;
                assert((prev + last)[i] == e);
            } else {
                assert((prev + last)[prev.len() as int] == e);
            }
        }
    }
}

fn check_structure(c: &Credential) -> (r: Option<StructureFault>)
    ensures
        r == structure_fault_of(*c),
{
    let base_ctx = "https://www.w3.org/2018/credentials/v1";
    let base_ty = "VerifiableCredential";
    if c.context.len() == 0 || !str_eq(c.context[0].as_str(), base_ctx) {
        return Some(StructureFault::MissingBaseContext);
    }
    let mut i: usize = 0;
    let mut found = false;
    while i < c.types.len()
        invariant
            i <= c.types@.len(),
            base_ty@ == base_type(),
            found == exists|j: int| 0 <= j < i && (#[trigger] c.types@[j])@ == base_type(),
        decreases c.types@.len() - i,
    {
        if str_eq(c.types[i].as_str(), base_ty) {
            assert(c.types@[i as int]@ == base_type());
            found = true;
        }
        i = i + 1;
    }
    if !found {
        return Some(StructureFault::MissingBaseType);
    }
    if c.subjects.len() == 0 {
        return Some(StructureFault::MissingSubject);
    }
    let mut k: usize = 0;
    while k < c.subjects.len()
        invariant
            k <= c.subjects@.len(),
            c.subjects@.len() > 0,
            c.context@.len() > 0 && c.context@[0]@ == base_context(),
            exists|j: int| 0 <= j < c.types@.len() && (#[trigger] c.types@[j])@ == base_type(),
            forall|j: int| 0 <= j < k ==> !((#[trigger] c.subjects@[j]).id is None && c.subjects@[j].property_count == 0),
        decreases c.subjects@.len() - k,
    {
        if c.subjects[k].id.is_none() && c.subjects[k].property_count == 0 {
            assert(c.subjects@[k as int].id is None);
            return Some(StructureFault::InvalidSubject);
        }
        k = k + 1;
    }
    None
}

fn check_relationship(c: &Credential, holder: &str, rel: SubjectHolderRelationship) -> (r: bool)
    ensures
        r == relationship_holds(*c, holder@, rel),
{
    let is_subject = c.subjects.len() == 1 && match &c.subjects[0].id {
        Some(id) => str_eq(id.as_str(), holder),
        None => false,
    };
    match rel {
        SubjectHolderRelationship::AlwaysSubject => is_subject,
        SubjectHolderRelationship::SubjectOnNonTransferable => is_subject || c.non_transferable != Some(true),
        SubjectHolderRelationship::Any => true,
    }
}

/// Runs validation unit `k`.
fn run_unit(k: usize, c: &Credential, o: &JptValidationOptions, now: i64) -> (r: Option<ValidationError>)
    requires
        k < 4,
    ensures
        r == unit_result(k as int, *c, *o, now),
{
    if k == 0 {
        let bound = match o.latest_issuance_date {
            Some(t) => t,
            None => now,
        };
        if c.issuance_date <= bound {
            None
        } else {
            Some(ValidationError::IssuanceDate)
        }
    } else if k == 1 {
        let bound = match o.earliest_expiry_date {
            Some(t) => t,
            None => now,
        };
        match c.expiration_date {
            Some(e) => if e >= bound {
                None
            } else {
                Some(ValidationError::ExpirationDate)
            },
            None => None,
        }
    } else if k == 2 {
        match check_structure(c) {
            Some(f) => Some(ValidationError::CredentialStructure(f)),
            None => None,
        }
    } else {
        match &o.subject_holder_relationship {
            Some((holder, rel)) => if check_relationship(c, holder.as_str(), *rel) {
                None
            } else {
                Some(ValidationError::SubjectHolderRelationship)
            },
            None => None,
        }
    }
}

/// Runs the validation units in their fixed order, stopping after the first
/// error under `FirstError`, and returns the errors found.
pub fn run_units(c: &Credential, o: &JptValidationOptions, now: i64, fail_fast: FailFast) -> (r: Vec<ValidationError>)
    ensures
        r@ == reported(*c, *o, now, fail_fast),
{
    let mut errors: Vec<ValidationError> = Vec::new();
    let mut k: usize = 0;
    while k < 4
        invariant
            k <= 4,
            errors@ == failures_upto(k as int, *c, *o, now),
            fail_fast == FailFast::FirstError ==> errors@.len() == 0,
        decreases 4 - k,
    {
        match run_unit(k, c, o, now) {
            Some(e) => {
                errors.push(e);
                if fail_fast == FailFast::FirstError {
                    proof {
                        assert forall|j: int| 0 <= j < k implies unit_result(j, *c, *o, now) is None by {
                            lemma_none_before(j, k as int, *c, *o, now);
                        }
                        lemma_failures_first(k as int, unit_count(), *c, *o, now);
                    }
                    return errors;
                }
            },
            None => {},
        }
        assert(errors@ =~= failures_upto(k as int + 1, *c, *o, now));
        k = k + 1;
    }
    errors
}

proof fn lemma_none_before(j: int, k: int, c: Credential, o: JptValidationOptions, now: i64)
    requires
        0 <= j < k,
        failures_upto(k, c, o, now).len() == 0,
    ensures
        unit_result(j, c, o, now) is None,
    decreases k,
{
    if j < k - 1 {
        lemma_none_before(j, k - 1, c, o, now);
    }
}

/// A DID: `did:`, a non-empty method name, `:`, and a non-empty
/// method-specific id.
pub open spec fn is_did(d: Seq<char>) -> bool {
    &&& d.len() >= 4 && d[0] == 'd' && d[1] == 'i' && d[2] == 'd' && d[3] == ':'
    &&& match split_once_of(d.skip(4), ':') {
        Some((name, id)) => name.len() > 0 && id.len() > 0,
        None => false,
    }
}

/// A DID URL read from text: a DID, then optionally `#` and a fragment.
pub open spec fn parse_did_url_of(s: Seq<char>) -> Option<(Seq<char>, Option<Seq<char>>)> {
    let (d, f) = match split_once_of(s, '#') {
        Some((d, f)) => (d, Some(f)),
        None => (s, None),
    };
    if is_did(d) {
        Some((d, f))
    } else {
        None
    }
}

fn check_did(d: &str) -> (r: bool)
    ensures
        r == is_did(d@),
{
    let n = d.unicode_len();
    if n < 4 || d.get_char(0) != 'd' || d.get_char(1) != 'i' || d.get_char(2) != 'd' || d.get_char(3) != ':' {
        return false;
    }
    let rest = d.substring_char(4, n);
    assert(rest@ =~= d@.skip(4));
    match split_once(rest, ':') {
        Some((name, id)) => name.unicode_len() > 0 && id.unicode_len() > 0,
        None => false,
    }
}

impl DidUrl {
    /// Reads a DID URL; `None` when the part before `#` is not a DID.
    pub fn parse(s: &str) -> (r: Option<DidUrl>)
        ensures
            match r {
                Some(u) => parse_did_url_of(s@) == Some(did_url_view(u)),
                None => parse_did_url_of(s@).is_none(),
            },
    {
        let u = match split_once(s, '#') {
            Some((did, fragment)) => DidUrl { did, fragment: Some(fragment) },
            None => DidUrl { did: s.to_string(), fragment: None },
        };
        if check_did(u.did.as_str()) {
            Some(u)
        } else {
            None
        }
    }

    pub fn copy(&self) -> (r: DidUrl)
        ensures
            did_url_view(r) == did_url_view(*self),
    {
        let fragment = match &self.fragment {
            Some(f) => Some(f.clone()),
            None => None,
        };
        DidUrl { did: self.did.clone(), fragment }
    }
}

/// The method id to verify with: the one the options give, else the `kid`
/// read as a DID URL.
pub open spec fn chosen_method_id(o: Option<DidUrl>, kid: Option<Seq<char>>) -> Result<(Seq<char>, Option<Seq<char>>), LookupFailure> {
    match o {
        Some(u) => Ok(did_url_view(u)),
        None => match kid {
            None => Err(LookupFailure::MissingKid),
            Some(k) => match parse_did_url_of(k) {
                Some(v) => Ok(v),
                None => Err(LookupFailure::InvalidKid),
            },
        },
    }
}

pub open spec fn kid_view(kid: Option<&str>) -> Option<Seq<char>> {
    match kid {
        Some(k) => Some(k@),
        None => None,
    }
}

/// Method `j` of document `d` has fragment `f`, lies in `scope` if one is
/// given, and holds a JWK.
pub open spec fn method_has_jwk(d: Document, j: int, f: Seq<char>, scope: Option<MethodScope>) -> bool {
    &&& d.methods()[j].0.fragment@ == f
    &&& (scope is None || scope == Some(d.methods()[j].1))
    &&& d.methods()[j].0.data is PublicKeyJwk
}

/// The key's method id names a method of `d` that holds the key's JWK and
/// is controlled by the key's controller.
pub open spec fn key_found_in(d: Document, k: IssuerKey, scope: Option<MethodScope>) -> bool {
    match k.method_id.fragment {
        Some(f) => exists|j: int| 0 <= j < d.methods().len() && #[trigger] method_has_jwk(d, j, f@, scope) && method_jwk_is(d, j, k),
        None => false,
    }
}

/// Method `j` of document `d` holds the JWK of `k` and is controlled by
/// `k`'s controller.
pub open spec fn method_jwk_is(d: Document, j: int, k: IssuerKey) -> bool {
    &&& d.methods()[j].0.controller@ == k.controller@
    &&& match d.methods()[j].0.data {
        MethodData::PublicKeyJwk(jk) => jwk_view(jk) == jwk_view(k.jwk),
        _ => false,
    }
}

/// Verifies credentials issued as JPTs against their issuers' documents.
#[non_exhaustive]
pub struct JptCredentialValidator;

impl JptCredentialValidator {
    /// Finds the issuer's public key: the method id comes from the options or
    /// else from the protected header's `kid`; the issuer is the first
    /// document whose id is the method id's DID; the key is the JWK of the
    /// method with the method id's fragment.
    pub fn locate_issuer_key(kid: Option<&str>, issuers: &Vec<Document>, options: &JptValidationOptions) -> (r: Result<IssuerKey, ValidationError>)
        ensures
            match chosen_method_id(options.method_id, kid_view(kid)) {
                Err(f) => r matches Err(ValidationError::MethodDataLookup { failure, signer_ctx: SignerContext::Issuer }) && failure == f,
                Ok((did, frag)) => {
                    &&& (forall|i: int| 0 <= i < issuers@.len() ==> (#[trigger] issuers@[i]).spec_id() != did) ==> (r matches Err(ValidationError::DocumentMismatch(SignerContext::Issuer)))
                    &&& match r {
                        Ok(k) => {
                            &&& did_url_view(k.method_id) == (did, frag)
                            &&& k.issuer_index < issuers@.len()
                            &&& issuers@[k.issuer_index as int].spec_id() == did
                            &&& forall|i: int| 0 <= i < k.issuer_index ==> (#[trigger] issuers@[i]).spec_id() != did
                            &&& key_found_in(issuers@[k.issuer_index as int], k, options.method_scope)
                        },
                        Err(ValidationError::DocumentMismatch(SignerContext::Issuer)) => forall|i: int| 0 <= i < issuers@.len() ==> (#[trigger] issuers@[i]).spec_id() != did,
                        Err(ValidationError::MethodDataLookup { failure: LookupFailure::MissingJwk, signer_ctx: SignerContext::Issuer }) => exists|i: int|
                            0 <= i < issuers@.len() && (#[trigger] issuers@[i]).spec_id() == did && (forall|h: int| 0 <= h < i ==> (#[trigger] issuers@[h]).spec_id() != did)
                                && match frag {
                                    None => true,
                                    Some(f) => forall|j: int| 0 <= j < issuers@[i].methods().len() ==> !method_has_jwk(issuers@[i], j, f, options.method_scope),
                                },
                        Err(_) => false,
                    }
                },
            },
    {
        let method_id = match &options.method_id {
            Some(u) => u.copy(),
            None => match kid {
                None => return Err(ValidationError::MethodDataLookup { failure: LookupFailure::MissingKid, signer_ctx: SignerContext::Issuer }),
                Some(k) => match DidUrl::parse(k) {
                    Some(u) => u,
                    None => return Err(ValidationError::MethodDataLookup { failure: LookupFailure::InvalidKid, signer_ctx: SignerContext::Issuer }),
                },
            },
        };
        let mut i: usize = 0;
        while i < issuers.len()
            invariant
                i <= issuers@.len(),
                forall|h: int| 0 <= h < i ==> (#[trigger] issuers@[h]).spec_id() != method_id.did@,
            ensures
                i <= issuers@.len(),
                forall|h: int| 0 <= h < i ==> (#[trigger] issuers@[h]).spec_id() != method_id.did@,
                i < issuers@.len() ==> issuers@[i as int].spec_id() == method_id.did@,
            decreases issuers@.len() - i,
        {
            if str_eq(issuers[i].id(), method_id.did.as_str()) {
                break;
            }
            i = i + 1;
        }
        if i == issuers.len() {
            return Err(ValidationError::DocumentMismatch(SignerContext::Issuer));
        }
        let missing = ValidationError::MethodDataLookup { failure: LookupFailure::MissingJwk, signer_ctx: SignerContext::Issuer };
        let doc = &issuers[i];
        proof {
            use_type_invariant(doc);
        }
        let fragment = match &method_id.fragment {
            Some(f) => f,
            None => return Err(missing),
        };
        let method = match doc.resolve_method(fragment.as_str(), options.method_scope) {
            Some(m) => m,
            None => {
                proof {
                    assert forall|j: int| 0 <= j < doc.methods().len() implies !method_has_jwk(*doc, j, fragment@, options.method_scope) by {
                    }
                }
                return Err(missing);
            },
        };
        let ghost ms = doc.methods();
        let ghost j0 = choose|j: int| 0 <= j < ms.len() && (#[trigger] ms[j]).0 == *method && method.fragment@ == fragment@
            && (options.method_scope is None || options.method_scope == Some(ms[j].1));
        proof {
            assert forall|j: int| 0 <= j < ms.len() && (#[trigger] ms[j]).0.fragment@ == fragment@ implies j == j0 by {
                if j < j0 {
                    assert(ms[j].0.fragment@ != ms[j0].0.fragment@);
                } else if j0 < j {
                    assert(ms[j0].0.fragment@ != ms[j].0.fragment@);
                }
            }
        }
        match &method.data {
            MethodData::PublicKeyJwk(j) => {
                let key = IssuerKey { method_id, issuer_index: i, jwk: copy_jwk(j), controller: method.controller.clone() };
                assert(issuers@[i as int] == *doc);
                assert(method_has_jwk(*doc, j0, fragment@, options.method_scope));
                assert(method_jwk_is(*doc, j0, key));
                assert(method_has_jwk(issuers@[key.issuer_index as int], j0, fragment@, options.method_scope));
                assert(method_jwk_is(issuers@[key.issuer_index as int], j0, key));
                assert(key_found_in(issuers@[key.issuer_index as int], key, options.method_scope));
                Ok(key)
            },
            _ => {
                proof {
                    assert forall|j: int| 0 <= j < ms.len() implies !method_has_jwk(*doc, j, fragment@, options.method_scope) by {
                        if ms[j].0.fragment@ == fragment@ {
                            assert(j == j0);
                        }
                    }
                    assert(issuers@[i as int] == *doc);
                }
                Err(missing)
            },
        }
    }

    /// Finishes validating a credential whose proof was checked against the
    /// issuer's key: a failed check is reported alone; so is an issuer that is
    /// not the DID controlling the issuer's method; else the validation units run under
    /// `fail_fast` and the credential is returned when none failed. `now` is
    /// the bound for the dates that the options leave open.
    pub fn validate(
        key: &IssuerKey,
        verified: Result<DecodedJptCredential, ValidationError>,
        options: &JptValidationOptions,
        now: i64,
        fail_fast: FailFast,
    ) -> (r: Result<DecodedJptCredential, CompoundValidationError>)
        ensures
            match verified {
                Err(e) => r matches Err(c) && c.validation_errors@ == seq![e],
                Ok(d) => if d.credential.issuer@ != key.controller@ {
                    r matches Err(c) && c.validation_errors@ == seq![ValidationError::IdentifierMismatch(SignerContext::Issuer)]
                } else if reported(d.credential, *options, now, fail_fast).len() == 0 {
                    r == Ok::<DecodedJptCredential, CompoundValidationError>(d)
                } else {
                    r matches Err(c) && c.validation_errors@ == reported(d.credential, *options, now, fail_fast)
                },
            },
    {
        let token = match verified {
            Ok(d) => d,
            Err(e) => return Err(CompoundValidationError { validation_errors: vec![e] }),
        };
        if !str_eq(token.credential.issuer.as_str(), key.controller.as_str()) {
            return Err(CompoundValidationError { validation_errors: vec![ValidationError::IdentifierMismatch(SignerContext::Issuer)] });
        }
        let errors = run_units(&token.credential, options, now, fail_fast);
        if errors.len() == 0 {
            Ok(token)
        } else {
            Err(CompoundValidationError { validation_errors: errors })
        }
    }
}

} // verus!
