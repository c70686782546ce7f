use vstd::prelude::*;
use crate::alg::CompositeAlgId;
use crate::text::str_eq;

verus! {

/// The relationship under which a method is inserted into a document.
#[derive(Clone, Copy, Debug, PartialEq, Eq, Structural)]
pub enum MethodScope {
    VerificationMethod,
    Authentication,
    AssertionMethod,
    KeyAgreement,
    CapabilityDelegation,
    CapabilityInvocation,
}

/// A public key in JSON form: its key id, if any, and the JSON text.
#[derive(Debug)]
pub struct Jwk {
    pub kid: Option<String>,
    pub json: String,
}

/// A classical and a post-quantum public key bound under one algorithm pair.
#[derive(Debug)]
pub struct CompositePublicKey {
    pub alg_id: CompositeAlgId,
    pub classical: Jwk,
    pub pq: Jwk,
}

#[derive(Debug)]
pub enum MethodData {
    PublicKeyJwk(Jwk),
    Composite(CompositePublicKey),
}

/// A verification method; its id is the document's DID, `#`, and `fragment`.
#[derive(Debug)]
pub struct VerificationMethod {
    pub fragment: String,
    pub controller: String,
    pub type_: String,
    pub data: MethodData,
}

/// A DID document: its identifier and its methods, each under one scope.
/// No two methods share a fragment.
pub struct Document {
    id: String,
    methods: Vec<(VerificationMethod, MethodScope)>,
}

pub open spec fn is_composite(m: VerificationMethod) -> bool {
    m.data is Composite
}

impl Document {
    pub closed spec fn spec_id(&self) -> Seq<char> {
        self.id@
    }

    /// The methods with their scopes, in insertion order.
    pub closed spec fn methods(&self) -> Seq<(VerificationMethod, MethodScope)> {
        self.methods@
    }

    pub open spec fn has_fragment(&self, f: Seq<char>) -> bool {
        exists|i: int| 0 <= i < self.methods().len() && (#[trigger] self.methods()[i]).0.fragment@ == f
    }

    /// No two methods share a fragment.
    pub open spec fn wf(&self) -> bool {
        forall|i: int, j: int|
            0 <= i < j < self.methods().len() ==> (#[trigger] self.methods()[i]).0.fragment@
                != (#[trigger] self.methods()[j]).0.fragment@
    }

    #[verifier::type_invariant]
    pub open spec fn fragments_unique(&self) -> bool {
        self.wf()
    }


    /// An empty document with identifier `id`.
    pub fn new(id: String) -> (r: Document)
        ensures
            r.wf(),
            r.spec_id() == id@,
            r.methods().len() == 0,
    {
        Document { id, methods: Vec::new() }
    }

    pub fn id(&self) -> (r: &str)
        ensures
            r@ == self.spec_id(),
    {
        self.id.as_str()
    }

    /// Index of the method whose fragment is `f`.
    pub fn find_fragment(&self, f: &str) -> (r: Option<usize>)
        ensures
            match r {
                Some(i) => i < self.methods().len() && self.methods()[i as int].0.fragment@ == f@,
                None => !self.has_fragment(f@),
            },
    {
        let mut i: usize = 0;
        while i < self.methods.len()
            invariant
                i <= self.methods@.len(),
                forall|j: int| 0 <= j < i ==> (#[trigger] self.methods@[j]).0.fragment@ != f@,
            decreases self.methods@.len() - i,
        {
            if str_eq(self.methods[i].0.fragment.as_str(), f) {
                return Some(i);
            }
            i = i + 1;
        }
        None
    }

    /// Adds `m` under `scope`; fails, leaving the document as it was, when a
    /// method with the same fragment is present.
    pub fn insert_method(&mut self, m: VerificationMethod, scope: MethodScope) -> (r: Result<(), DocumentError>)
        ensures
            final(self).spec_id() == old(self).spec_id(),
            old(self).has_fragment(m.fragment@) ==> r == Err::<(), DocumentError>(DocumentError::FragmentAlreadyExists)
                && final(self).methods() == old(self).methods(),
            !old(self).has_fragment(m.fragment@) ==> r is Ok && final(self).methods() == old(self).methods().push((m, scope)),
    {
        proof {
            use_type_invariant(&*self);
        }
        match self.find_fragment(m.fragment.as_str()) {
            Some(_) => Err(DocumentError::FragmentAlreadyExists),
            None => {
                let mut ms: Vec<(VerificationMethod, MethodScope)> = Vec::new();
                std::mem::swap(&mut self.methods, &mut ms);
                ms.push((m, scope));
                self.methods = ms;
                Ok(())
            },
        }
    }

    /// Removes the method whose fragment is `f`, returning it.
    pub fn remove_method(&mut self, f: &str) -> (r: Option<VerificationMethod>)
        ensures
            final(self).spec_id() == old(self).spec_id(),
            !old(self).has_fragment(f@) ==> r is None && final(self).methods() == old(self).methods(),
            old(self).has_fragment(f@) ==> exists|i: int|
                0 <= i < old(self).methods().len() && (#[trigger] old(self).methods()[i]).0.fragment@ == f@
                    && r == Some(old(self).methods()[i].0)
                    && final(self).methods() == old(self).methods().remove(i),
    {
        proof {
            use_type_invariant(&*self);
        }
        match self.find_fragment(f) {
            Some(i) => {
                let mut ms: Vec<(VerificationMethod, MethodScope)> = Vec::new();
                std::mem::swap(&mut self.methods, &mut ms);
                let (m, _) = ms.remove(i);
                proof {
                    let o = old(self).methods();
                    let n = ms@;
                    assert forall|a: int, b: int| 0 <= a < b < n.len() implies
                        (#[trigger] n[a]).0.fragment@ != (#[trigger] n[b]).0.fragment@ by {
                        let a2 = if a < i { a } else { a + 1 };
                        let b2 = if b < i { b } else { b + 1 };
                        assert(n[a] == o[a2]);
                        assert(n[b] == o[b2]);
                    }
                }
                self.methods = ms;
                Some(m)
            },
            None => None,
        }
    }

    /// The method with fragment `f`, under `scope` when one is given.
    pub fn resolve_method(&self, f: &str, scope: Option<MethodScope>) -> (r: Option<&VerificationMethod>)
        ensures
            match r {
                Some(m) => exists|i: int|
                    0 <= i < self.methods().len() && (#[trigger] self.methods()[i]).0 == *m
                        && m.fragment@ == f@ && (scope is None || scope == Some(self.methods()[i].1)),
                None => forall|i: int|
                    0 <= i < self.methods().len() && (#[trigger] self.methods()[i]).0.fragment@ == f@
                        ==> scope is Some && scope != Some(self.methods()[i].1),
            },
    {
        proof {
            use_type_invariant(self);
        }
        match self.find_fragment(f) {
            Some(i) => {
                let ok = match scope {
                    None => true,
                    Some(s) => s == self.methods[i].1,
                };
                if ok {
                    Some(&self.methods[i].0)
                } else {
                    None
                }
            },
            None => None,
        }
    }
}

#[derive(Clone, Copy, Debug, PartialEq, Eq, Structural)]
pub enum DocumentError {
    FragmentAlreadyExists,
}

} // verus!
