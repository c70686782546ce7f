use vstd::prelude::*;
use crate::alg::{pq_alg_name_of, CompositeAlgId, CLASSICAL_ALG, CLASSICAL_KEY_TYPE, PQ_KEY_TYPE};
use crate::document::{CompositePublicKey, Document, Jwk, MethodData, MethodScope, VerificationMethod};
use crate::handle::{pair_handles, paired_handle_of};
use crate::header::opt_text;
use crate::method::{chosen_fragment, composite_method, composite_type, fingerprint_of, method_fingerprint, resolve_fragment};
use crate::signer::jwk_view;
use crate::text::{contains_char, lacks};

verus! {

/// A key made by the key store: its handle and its public key.
pub struct GeneratedKey {
    pub handle: String,
    pub jwk: Jwk,
}

/// What the caller reports back after performing an action.
pub enum KeyGenEvent {
    ClassicalGenerated(Result<GeneratedKey, String>),
    PqGenerated(Result<GeneratedKey, String>),
    HandleStored(Result<(), String>),
    KeyDeleted(Result<(), String>),
}

/// What the caller is asked to do next.
pub enum KeyGenAction {
    GenerateClassical { key_type: String, alg: String },
    GeneratePq { key_type: String, alg: String },
    StoreHandle { fingerprint: Vec<u8>, paired_handle: String },
    DeleteKey { handle: String },
    Finish(Result<String, KeyManagerError>),
}

#[derive(Debug)]
pub enum KeyManagerError {
    KeyStorage(String),
    KeyIdStorage(String),
    /// A key handle holds `~`, the separator of paired handles.
    InvalidKeyHandle,
    MissingFragment,
    FragmentAlreadyExists,
    /// Deleting a generated key during rollback failed; `source` is the
    /// error that caused the rollback.
    UndoFailed { source: Box<KeyManagerError>, undo_error: String },
}

/// `h` is one of the handles in `p`.
pub open spec fn in_handles(p: Seq<String>, h: Seq<char>) -> bool {
    exists|i: int| 0 <= i < p.len() && (#[trigger] p[i])@ == h
}

/// Every generated handle is deleted, about to be deleted, or its deletion
/// failed and `e` says so.
pub open spec fn covered(
    gen: Seq<Seq<char>>,
    p: Seq<String>,
    current: Seq<char>,
    deleted: Set<Seq<char>>,
    e: KeyManagerError,
) -> bool {
    forall|h: Seq<char>| #[trigger] gen.contains(h) ==> h == current || in_handles(p, h) || deleted.contains(h) || e is UndoFailed
}

/// Where generation stands.
pub enum Phase {
    /// Waiting for the classical key.
    AwaitClassical,
    /// Waiting for the post-quantum key.
    AwaitPq { classical: GeneratedKey },
    /// The method is in the document; waiting for its paired handle to be stored.
    AwaitStore { fragment: String, classical: String, pq: String },
    /// Rolling back: `current` is being deleted, then `pending` from its end.
    Undo { pending: Vec<String>, current: String, error: KeyManagerError },
    Done,
}

/// The decisions of generating a composite method: two key generations, the
/// insertion of the method, the storing of its paired handle, and the
/// rollback of whatever was done when a step fails.
pub struct KeyGenMachine {
    doc: Document,
    alg: CompositeAlgId,
    fragment: Option<String>,
    scope: MethodScope,
    phase: Phase,
    orig: Ghost<Seq<(VerificationMethod, MethodScope)>>,
    doc_id: Ghost<Seq<char>>,
    generated: Ghost<Seq<Seq<char>>>,
    deleted: Ghost<Set<Seq<char>>>,
    stored: Ghost<Option<(Seq<u8>, Seq<char>)>>,
}

impl KeyGenMachine {
    /// The document the method is generated for.
    pub closed spec fn doc(&self) -> Document {
        self.doc
    }

    pub closed spec fn phase(&self) -> Phase {
        self.phase
    }

    /// The fragment the caller asked for, if any.
    pub closed spec fn given_fragment(&self) -> Option<Seq<char>> {
        opt_text(self.fragment)
    }

    #[verifier::type_invariant]
    closed spec fn consistent(&self) -> bool {
        self.inv(self.doc)
    }

    /// The document's methods before generation began.
    pub closed spec fn orig(&self) -> Seq<(VerificationMethod, MethodScope)> {
        self.orig@
    }

    /// Handles of the keys the key store reported generated, in order.
    pub closed spec fn generated(&self) -> Seq<Seq<char>> {
        self.generated@
    }

    /// Handles whose deletion the key store confirmed.
    pub closed spec fn deleted(&self) -> Set<Seq<char>> {
        self.deleted@
    }

    /// The fingerprint and paired handle whose storing was confirmed.
    pub closed spec fn stored(&self) -> Option<(Seq<u8>, Seq<char>)> {
        self.stored@
    }

    pub closed spec fn alg(&self) -> CompositeAlgId {
        self.alg
    }

    pub closed spec fn scope(&self) -> MethodScope {
        self.scope
    }

    pub open spec fn is_done(&self) -> bool {
        self.phase() is Done
    }

    pub open spec fn expects(&self, e: KeyGenEvent) -> bool {
        match self.phase() {
            Phase::AwaitClassical => e is ClassicalGenerated,
            Phase::AwaitPq { .. } => e is PqGenerated,
            Phase::AwaitStore { .. } => e is HandleStored,
            Phase::Undo { .. } => e is KeyDeleted,
            Phase::Done => false,
        }
    }

    /// The machine's state agrees with the document `doc`.
    closed spec fn inv(&self, doc: Document) -> bool {
        &&& doc.wf()
        &&& doc.spec_id() == self.doc_id@
        &&& forall|i: int| 0 <= i < self.generated@.len() ==> !self.deleted@.contains(#[trigger] self.generated@[i]) || self.phase is Undo || self.phase is Done
        &&& match self.phase {
            Phase::AwaitClassical => doc.methods() == self.orig@ && self.generated@.len() == 0
                && self.stored@ is None && self.deleted@ == Set::<Seq<char>>::empty(),
            Phase::AwaitPq { classical } => doc.methods() == self.orig@ && self.generated@ == seq![classical.handle@]
                && lacks(classical.handle@, '~') && self.stored@ is None && self.deleted@ == Set::<Seq<char>>::empty(),
            Phase::AwaitStore { fragment, classical, pq } => {
                &&& self.generated@ == seq![classical@, pq@]
                &&& lacks(classical@, '~') && lacks(pq@, '~')
                &&& self.stored@ is None
                &&& self.deleted@ == Set::<Seq<char>>::empty()
                &&& new_method_in(doc, self.orig@, fragment@, self.doc_id@, self.alg, self.scope)
            },
            Phase::Undo { pending, current, error } => {
                &&& doc.methods() == self.orig@
                &&& self.stored@ is None
                &&& self.generated@.contains(current@)
                &&& forall|i: int| 0 <= i < pending@.len() ==> self.generated@.contains(#[trigger] pending@[i]@)
                &&& covered(self.generated@, pending@, current@, self.deleted@, error)
            },
            Phase::Done => true,
        }
    }

    /// Starts generating a composite method for `doc`: the first action is
    /// the generation of the classical key.
    pub fn new(doc: Document, alg: CompositeAlgId, fragment: Option<String>, scope: MethodScope) -> (r: (KeyGenMachine, KeyGenAction))
        ensures
            r.0.doc() == doc,
            r.0.orig() == doc.methods(),
            r.0.scope() == scope,
            r.0.alg() == alg,
            r.0.given_fragment() == opt_text(fragment),
            r.0.phase() is AwaitClassical,
            r.0.generated() == Seq::<Seq<char>>::empty(),
            r.1 matches KeyGenAction::GenerateClassical { key_type, alg: a } && key_type@ == CLASSICAL_KEY_TYPE@
                && a@ == CLASSICAL_ALG@,
    {
        proof {
            use_type_invariant(&doc);
        }
        let ghost methods = doc.methods();
        let ghost id = doc.spec_id();
        let m = KeyGenMachine {
            doc,
            alg,
            fragment,
            scope,
            phase: Phase::AwaitClassical,
            orig: Ghost(methods),
            doc_id: Ghost(id),
            generated: Ghost(Seq::empty()),
            deleted: Ghost(Set::empty()),
            stored: Ghost(None),
        };
        (m, KeyGenAction::GenerateClassical { key_type: CLASSICAL_KEY_TYPE.to_string(), alg: CLASSICAL_ALG.to_string() })
    }

    /// Whether `e` is the event the machine waits for.
    pub fn accepts(&self, e: &KeyGenEvent) -> (r: bool)
        ensures
            r == self.expects(*e),
    {
        match (&self.phase, e) {
            (Phase::AwaitClassical, KeyGenEvent::ClassicalGenerated(_)) => true,
            (Phase::AwaitPq { .. }, KeyGenEvent::PqGenerated(_)) => true,
            (Phase::AwaitStore { .. }, KeyGenEvent::HandleStored(_)) => true,
            (Phase::Undo { .. }, KeyGenEvent::KeyDeleted(_)) => true,
            _ => false,
        }
    }

    fn begin_undo(self, mut pending: Vec<String>, error: KeyManagerError) -> (r: (KeyGenMachine, KeyGenAction))
        requires
            pending@.len() > 0,
            self.stored@ is None,
            self.doc.methods() == self.orig@,
            forall|i: int| 0 <= i < pending@.len() ==> self.generated@.contains(#[trigger] pending@[i]@),
            forall|h: Seq<char>| #[trigger] self.generated@.contains(h) ==> in_handles(pending@, h)
                || self.deleted@.contains(h) || error is UndoFailed,
        ensures
            undoing(r.0, r.1, pending@.drop_last(), pending@.last()@),
            undo_error(r.0) == error,
            r.0.doc == self.doc,
            r.0.fragment == self.fragment,
            r.0.orig@ == self.orig@,
            r.0.doc_id@ == self.doc_id@,
            r.0.generated@ == self.generated@,
            r.0.deleted@ == self.deleted@,
            r.0.stored@ == self.stored@,
            r.0.scope == self.scope,
            r.0.alg == self.alg,
    {
        proof {
            use_type_invariant(&self);
        }
        let ghost old_pending = pending@;
        let current = pending.pop().unwrap();
        let handle = current.clone();
        proof {
            assert(old_pending == pending@.push(current));
            assert forall|i: int| 0 <= i < pending@.len() implies self.generated@.contains(#[trigger] pending@[i]@) by {
                assert(pending@[i] == old_pending[i]);
            }
            assert(self.generated@.contains(current@)) by {
                assert(old_pending[old_pending.len() - 1] == current);
            }
            assert forall|h: Seq<char>| #[trigger] self.generated@.contains(h) implies
                h == current@ || in_handles(pending@, h) || self.deleted@.contains(h) || error is UndoFailed by {
                if in_handles(old_pending, h) {
                    let i = choose|i: int| 0 <= i < old_pending.len() && (#[trigger] old_pending[i])@ == h;
                    if i < pending@.len() {
                        assert(pending@[i] == old_pending[i]);
                        assert(in_handles(pending@, h));
                    } else {
                        assert(old_pending[i] == current);
                    }
                }
            }
        }
        let KeyGenMachine { doc, alg, fragment, scope, orig, doc_id, generated, deleted, stored, .. } = self;
        let m = KeyGenMachine { doc, alg, fragment, scope, phase: Phase::Undo { pending, current, error }, orig, doc_id, generated, deleted, stored };
        (m, KeyGenAction::DeleteKey { handle })
    }
}

/// The document holds the methods `orig` followed by the new composite
/// method: fragment `f`, controller `doc_id`, the composite type, the
/// algorithm pair `alg`, under `scope`.
pub open spec fn new_method_in(
    doc: Document,
    orig: Seq<(VerificationMethod, MethodScope)>,
    f: Seq<char>,
    doc_id: Seq<char>,
    alg: CompositeAlgId,
    scope: MethodScope,
) -> bool {
    &&& doc.methods().len() == orig.len() + 1
    &&& doc.methods().drop_last() == orig
    &&& doc.methods().last().0.fragment@ == f
    &&& doc.methods().last().0.controller@ == doc_id
    &&& doc.methods().last().0.type_@ == composite_type()
    &&& doc.methods().last().0.data matches MethodData::Composite(c) && c.alg_id == alg
    &&& doc.methods().last().1 == scope
}

/// The machine rolls back: it deletes `current`, then `pending` from its end.
pub open spec fn undoing(m: KeyGenMachine, a: KeyGenAction, pending: Seq<String>, current: Seq<char>) -> bool {
    match (m.phase(), a) {
        (Phase::Undo { pending: p, current: c, .. }, KeyGenAction::DeleteKey { handle }) => p@ == pending && c@ == current
            && handle@ == current,
        _ => false,
    }
}

/// The error a rollback will end with, if no deletion fails.
pub open spec fn undo_error(m: KeyGenMachine) -> KeyManagerError {
    match m.phase() {
        Phase::Undo { error, .. } => error,
        _ => KeyManagerError::MissingFragment,
    }
}

/// The error after a deletion with result `res` during a rollback for `error`.
pub open spec fn after_delete(res: Result<(), String>, error: KeyManagerError, next: KeyManagerError) -> bool {
    match res {
        Ok(_) => next == error,
        Err(u) => match next {
            KeyManagerError::UndoFailed { source, undo_error } => *source == error && undo_error == u,
            _ => false,
        },
    }
}

/// The key id of a public key, if any.
pub open spec fn kid_of(j: Jwk) -> Option<Seq<char>> {
    jwk_view(j).0
}

/// What each event leads to, from the machine `m` to `n` with action `a`.
pub open spec fn transition(m: KeyGenMachine, e: KeyGenEvent, n: KeyGenMachine, a: KeyGenAction) -> bool {
    match (m.phase(), e) {
        (Phase::AwaitClassical, KeyGenEvent::ClassicalGenerated(Err(s))) => {
            &&& a == KeyGenAction::Finish(Err(KeyManagerError::KeyStorage(s)))
            &&& n.generated() == m.generated()
            &&& n.doc().methods() == m.doc().methods()
        },
        (Phase::AwaitClassical, KeyGenEvent::ClassicalGenerated(Ok(k))) => {
            &&& n.generated() == seq![k.handle@]
            &&& n.doc().methods() == m.doc().methods()
            &&& if lacks(k.handle@, '~') {
                &&& n.phase() == Phase::AwaitPq { classical: k }
                &&& match a {
                    KeyGenAction::GeneratePq { key_type, alg } => key_type@ == PQ_KEY_TYPE@ && alg@ == pq_alg_name_of(m.alg()),
                    _ => false,
                }
            } else {
                undoing(n, a, seq![], k.handle@) && undo_error(n) == KeyManagerError::InvalidKeyHandle
            }
        },
        (Phase::AwaitPq { classical: c }, KeyGenEvent::PqGenerated(Err(s))) => {
            &&& n.generated() == m.generated()
            &&& n.doc().methods() == m.doc().methods()
            &&& undoing(n, a, seq![], c.handle@)
            &&& undo_error(n) == KeyManagerError::KeyStorage(s)
        },
        (Phase::AwaitPq { classical: c }, KeyGenEvent::PqGenerated(Ok(p))) => {
            let f = chosen_fragment(m.given_fragment(), kid_of(c.jwk), kid_of(p.jwk));
            &&& n.generated() == seq![c.handle@, p.handle@]
            &&& if !lacks(p.handle@, '~') {
                &&& n.doc().methods() == m.doc().methods()
                &&& undoing(n, a, seq![c.handle], p.handle@)
                &&& undo_error(n) == KeyManagerError::InvalidKeyHandle
            } else if f is None {
                &&& n.doc().methods() == m.doc().methods()
                &&& undoing(n, a, seq![c.handle], p.handle@)
                &&& undo_error(n) == KeyManagerError::MissingFragment
            } else if m.doc().has_fragment(f.unwrap()) {
                &&& n.doc().methods() == m.doc().methods()
                &&& undoing(n, a, seq![c.handle], p.handle@)
                &&& undo_error(n) == KeyManagerError::FragmentAlreadyExists
            } else {
                &&& new_method_in(n.doc(), m.doc().methods(), f.unwrap(), m.doc().spec_id(), m.alg(), m.scope())
                &&& n.doc().methods().last().0.data == MethodData::Composite(
                    CompositePublicKey { alg_id: m.alg(), classical: c.jwk, pq: p.jwk },
                )
                &&& n.phase() is AwaitStore
                &&& match a {
                    KeyGenAction::StoreHandle { fingerprint, paired_handle } => fingerprint@ == fingerprint_of(
                        n.doc().methods().last().0,
                    ) && paired_handle@ == paired_handle_of(c.handle@, p.handle@),
                    _ => false,
                }
            }
        },
        (Phase::AwaitStore { fragment, classical: _, pq: _ }, KeyGenEvent::HandleStored(Ok(_))) => {
            &&& n.doc().methods() == m.doc().methods()
            &&& match a {
                KeyGenAction::Finish(Ok(f)) => f@ == fragment@,
                _ => false,
            }
        },
        (Phase::AwaitStore { fragment: _, classical, pq }, KeyGenEvent::HandleStored(Err(s))) => {
            &&& n.doc().methods() == m.orig()
            &&& undoing(n, a, seq![classical], pq@)
            &&& undo_error(n) == KeyManagerError::KeyIdStorage(s)
        },
        (Phase::Undo { pending, current, error }, KeyGenEvent::KeyDeleted(res)) => {
            &&& n.doc().methods() == m.doc().methods()
            &&& (res is Ok ==> n.deleted() == m.deleted().insert(current@))
            &&& if pending@.len() == 0 {
                match a {
                    KeyGenAction::Finish(Err(e2)) => after_delete(res, error, e2),
                    _ => false,
                }
            } else {
                undoing(n, a, pending@.drop_last(), pending@.last()@) && after_delete(res, error, undo_error(n))
            }
        },
        _ => true,
    }
}

/// A generation that succeeded: the document holds the new composite method
/// with fragment `f` under the requested scope, and the key handle store was
/// given the method's fingerprint with the paired handle of the two keys
/// generated; that pair holds exactly one `~`, and neither key was deleted.
pub open spec fn finished_ok(m: KeyGenMachine, doc: Document, f: Seq<char>) -> bool {
    &&& m.generated().len() == 2
    &&& lacks(m.generated()[0], '~') && lacks(m.generated()[1], '~')
    &&& m.deleted() == Set::<Seq<char>>::empty()
    &&& new_method_in(doc, m.orig(), f, doc.spec_id(), m.alg(), m.scope())
    &&& m.stored() == Some((fingerprint_of(doc.methods().last().0), paired_handle_of(m.generated()[0], m.generated()[1])))
}

/// A generation that failed: the document holds exactly the methods it held
/// before, nothing was stored in the key handle store, and every generated key
/// was deleted unless `e` reports that its deletion failed.
pub open spec fn finished_err(m: KeyGenMachine, doc: Document, e: KeyManagerError) -> bool {
    &&& m.stored() is None
    &&& doc.methods() == m.orig()
    &&& forall|h: Seq<char>| #[trigger] m.generated().contains(h) ==> m.deleted().contains(h) || e is UndoFailed
}

proof fn lemma_two_pending(g: Seq<Seq<char>>, pending: Seq<String>)
    requires
        pending.len() == 2,
        g == seq![pending[0]@, pending[1]@],
    ensures
        forall|i: int| 0 <= i < pending.len() ==> g.contains(#[trigger] pending[i]@),
        forall|h: Seq<char>| #[trigger] g.contains(h) ==> in_handles(pending, h),
        pending.drop_last() == seq![pending[0]],
{
    assert(pending.drop_last() =~= seq![pending[0]]);
    assert(g[0] == pending[0]@);
    assert(g[1] == pending[1]@);
    assert forall|h: Seq<char>| #[trigger] g.contains(h) implies in_handles(pending, h) by {
        if h == g[0] {
            assert(pending[0]@ == h);
        } else {
            assert(pending[1]@ == h);
        }
    }
}

proof fn lemma_one_pending(g: Seq<Seq<char>>, pending: Seq<String>)
    requires
        pending.len() == 1,
        g == seq![pending[0]@],
    ensures
        forall|i: int| 0 <= i < pending.len() ==> g.contains(#[trigger] pending[i]@),
        forall|h: Seq<char>| #[trigger] g.contains(h) ==> in_handles(pending, h),
        pending.drop_last() == Seq::<String>::empty(),
{
    assert(pending.drop_last() =~= Seq::<String>::empty());
    assert(g[0] == pending[0]@);
    assert forall|h: Seq<char>| #[trigger] g.contains(h) implies in_handles(pending, h) by {
        assert(pending[0]@ == h);
    }
}

impl KeyGenMachine {
    /// Advances on the event `e`, inserting the new method into the document
    /// or removing it again, and returns the next action.
    pub fn step(self, e: KeyGenEvent) -> (r: (KeyGenMachine, KeyGenAction))
        requires
            self.expects(e),
        ensures
            transition(self, e, r.0, r.1),
            r.0.orig() == self.orig(),
            r.0.scope() == self.scope(),
            r.0.alg() == self.alg(),
            r.0.given_fragment() == self.given_fragment(),
            r.0.is_done() <==> r.1 is Finish,
            r.0.doc().spec_id() == self.doc().spec_id(),
            match r.1 {
                KeyGenAction::Finish(Ok(f)) => finished_ok(r.0, r.0.doc(), f@),
                KeyGenAction::Finish(Err(err)) => finished_err(r.0, r.0.doc(), err),
                KeyGenAction::DeleteKey { handle } => r.0.generated().contains(handle@),
                _ => true,
            },
    {
        proof {
            use_type_invariant(&self);
        }
        let ghost d0 = self.doc;
        let KeyGenMachine { mut doc, alg, fragment, scope, phase, orig, doc_id, generated, deleted, stored } = self;
        match (phase, e) {
            (Phase::AwaitClassical, KeyGenEvent::ClassicalGenerated(Err(s))) => {
                let m = KeyGenMachine { doc, alg, fragment, scope, phase: Phase::Done, orig, doc_id, generated, deleted, stored };
                (m, KeyGenAction::Finish(Err(KeyManagerError::KeyStorage(s))))
            },
            (Phase::AwaitClassical, KeyGenEvent::ClassicalGenerated(Ok(k))) => {
                let ghost g = seq![k.handle@];
                if contains_char(k.handle.as_str(), '~') {
                    let pending = vec![k.handle];
                    proof {
                        lemma_one_pending(g, pending@);
                    }
                    let m = KeyGenMachine { doc, alg, fragment, scope, phase: Phase::Done, orig, doc_id, generated: Ghost(g), deleted, stored };
                    return m.begin_undo(pending, KeyManagerError::InvalidKeyHandle);
                }
                let m = KeyGenMachine {
                    doc,
                    alg,
                    fragment,
                    scope,
                    phase: Phase::AwaitPq { classical: k },
                    orig,
                    doc_id,
                    generated: Ghost(g),
                    deleted,
                    stored,
                };
                (m, KeyGenAction::GeneratePq { key_type: PQ_KEY_TYPE.to_string(), alg: alg.pq_alg().to_string() })
            },
            (Phase::AwaitPq { classical }, KeyGenEvent::PqGenerated(Err(s))) => {
                let pending = vec![classical.handle];
                proof {
                    lemma_one_pending(generated@, pending@);
                }
                let m = KeyGenMachine { doc, alg, fragment, scope, phase: Phase::Done, orig, doc_id, generated, deleted, stored };
                m.begin_undo(pending, KeyManagerError::KeyStorage(s))
            },
            (Phase::AwaitPq { classical }, KeyGenEvent::PqGenerated(Ok(pk))) => {
                let GeneratedKey { handle: c_handle, jwk: c_jwk } = classical;
                let GeneratedKey { handle: p_handle, jwk: p_jwk } = pk;
                let ghost g = seq![c_handle@, p_handle@];
                if contains_char(p_handle.as_str(), '~') {
                    let pending = vec![c_handle, p_handle];
                    proof {
                        lemma_two_pending(g, pending@);
                    }
                    let m = KeyGenMachine { doc, alg, fragment, scope, phase: Phase::Done, orig, doc_id, generated: Ghost(g), deleted, stored };
                    return m.begin_undo(pending, KeyManagerError::InvalidKeyHandle);
                }
                let given = match &fragment {
                    Some(f) => Some(f.as_str()),
                    None => None,
                };
                let t_kid = match &c_jwk.kid {
                    Some(k) => Some(k.as_str()),
                    None => None,
                };
                let pq_kid = match &p_jwk.kid {
                    Some(k) => Some(k.as_str()),
                    None => None,
                };
                let chosen = resolve_fragment(given, t_kid, pq_kid);
                match chosen {
                    None => {
                        let pending = vec![c_handle, p_handle];
                        proof {
                            lemma_two_pending(g, pending@);
                        }
                        let m = KeyGenMachine { doc, alg, fragment, scope, phase: Phase::Done, orig, doc_id, generated: Ghost(g), deleted, stored };
                        m.begin_undo(pending, KeyManagerError::MissingFragment)
                    },
                    Some(f) => {
                        let fragment_copy = f.clone();
                        let classical_copy = c_handle.clone();
                        let pq_copy = p_handle.clone();
                        let method = composite_method(doc.id(), f, alg, c_jwk, p_jwk);
                        let fp = method_fingerprint(&method);
                        let ghost mv = method;
                        match doc.insert_method(method, scope) {
                            Err(_) => {
                                let pending = vec![c_handle, p_handle];
                                proof {
                                    lemma_two_pending(g, pending@);
                                }
                                let m = KeyGenMachine { doc, alg, fragment, scope, phase: Phase::Done, orig, doc_id, generated: Ghost(g), deleted, stored };
                                m.begin_undo(pending, KeyManagerError::FragmentAlreadyExists)
                            },
                            Ok(()) => {
                                let paired = pair_handles(classical_copy.as_str(), pq_copy.as_str());
                                proof {
                                    assert(doc.methods().drop_last() =~= d0.methods());
                                    assert(doc.methods().last() == (mv, scope));
                                }
                                let m = KeyGenMachine {
                                    doc,
                                    alg,
                                    fragment,
                                    scope,
                                    phase: Phase::AwaitStore { fragment: fragment_copy, classical: classical_copy, pq: pq_copy },
                                    orig,
                                    doc_id,
                                    generated: Ghost(g),
                                    deleted,
                                    stored,
                                };
                                (m, KeyGenAction::StoreHandle { fingerprint: fp, paired_handle: paired })
                            },
                        }
                    },
                }
            },
            (Phase::AwaitStore { fragment: f, classical, pq }, KeyGenEvent::HandleStored(Ok(()))) => {
                let ghost entry = (fingerprint_of(d0.methods().last().0), paired_handle_of(generated@[0], generated@[1]));
                let m = KeyGenMachine {
                    doc,
                    alg,
                    fragment,
                    scope,
                    phase: Phase::Done,
                    orig,
                    doc_id,
                    generated,
                    deleted,
                    stored: Ghost(Some(entry)),
                };
                (m, KeyGenAction::Finish(Ok(f)))
            },
            (Phase::AwaitStore { fragment: f, classical, pq }, KeyGenEvent::HandleStored(Err(s))) => {
                proof {
                    let ms = doc.methods();
                    assert(ms[ms.len() - 1].0.fragment@ == f@);
                    assert forall|i: int| 0 <= i < ms.len() - 1 implies (#[trigger] ms[i]).0.fragment@ != f@ by {
                        assert(ms[i].0.fragment@ != ms[ms.len() - 1].0.fragment@);
                    }
                }
                let _ = doc.remove_method(f.as_str());
                proof {
                    let ms = d0.methods();
                    let i = choose|i: int| 0 <= i < ms.len() && (#[trigger] ms[i]).0.fragment@ == f@
                        && doc.methods() == ms.remove(i);
                    assert(i == ms.len() - 1);
                    assert(doc.methods() =~= orig@);
                }
                let pending = vec![classical, pq];
                proof {
                    lemma_two_pending(generated@, pending@);
                }
                let m = KeyGenMachine { doc, alg, fragment, scope, phase: Phase::Done, orig, doc_id, generated, deleted, stored };
                m.begin_undo(pending, KeyManagerError::KeyIdStorage(s))
            },
            (Phase::Undo { pending, current, error }, KeyGenEvent::KeyDeleted(res)) => {
                let ghost cur = current@;
                let (error, deleted) = match res {
                    Ok(()) => (error, Ghost(deleted@.insert(cur))),
                    Err(u) => (KeyManagerError::UndoFailed { source: Box::new(error), undo_error: u }, deleted),
                };
                let m = KeyGenMachine { doc, alg, fragment, scope, phase: Phase::Done, orig, doc_id, generated, deleted, stored };
                if pending.len() == 0 {
                    proof {
                        assert forall|h: Seq<char>| #[trigger] m.generated@.contains(h) implies
                            m.deleted@.contains(h) || error is UndoFailed by {
                            if in_handles(pending@, h) {
                                let i = choose|i: int| 0 <= i < pending@.len() && (#[trigger] pending@[i])@ == h;
                            }
                        }
                    }
                    (m, KeyGenAction::Finish(Err(error)))
                } else {
                    m.begin_undo(pending, error)
                }
            },
            (_, _) => {
                proof {
                    assert(false);
                }
                let m = KeyGenMachine { doc, alg, fragment, scope, phase: Phase::Done, orig, doc_id, generated, deleted, stored };
                (m, KeyGenAction::Finish(Err(KeyManagerError::MissingFragment)))
            },
        }
    }
}

impl KeyGenMachine {
    /// The document, with the new method once it was inserted.
    pub fn document(&self) -> (r: &Document)
        ensures
            *r == self.doc(),
    {
        &self.doc
    }

    /// Gives the document back.
    pub fn into_document(self) -> (r: Document)
        ensures
            r == self.doc(),
    {
        self.doc
    }
}

} // verus!
