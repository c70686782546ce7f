use vstd::prelude::*;

verus! {

/// The permitted pairs of a post-quantum and a classical signature scheme,
/// each pinned to SHA-512.
#[derive(Clone, Copy, Debug, PartialEq, Eq, Structural)]
pub enum CompositeAlgId {
    IdMldsa44Ed25519Sha512,
    IdMldsa65Ed25519Sha512,
}

/// Last byte of the DER-encoded object identifier of each pair.
pub open spec fn oid_last_byte(alg: CompositeAlgId) -> u8 {
    match alg {
        CompositeAlgId::IdMldsa44Ed25519Sha512 => 0x03,
        CompositeAlgId::IdMldsa65Ed25519Sha512 => 0x0A,
    }
}

/// The 13-byte DER object identifier that prefixes every signing input.
pub open spec fn oid_prefix_of(alg: CompositeAlgId) -> Seq<u8> {
    seq![0x06u8, 0x0Bu8, 0x60u8, 0x86u8, 0x48u8, 0x01u8, 0x86u8, 0xFAu8, 0x6Bu8, 0x50u8, 0x08u8, 0x01u8, oid_last_byte(alg)]
}

pub open spec fn alg_name_of(alg: CompositeAlgId) -> Seq<char> {
    match alg {
        CompositeAlgId::IdMldsa44Ed25519Sha512 => "Mldsa44+Ed25519+Sha512"@,
        CompositeAlgId::IdMldsa65Ed25519Sha512 => "Mldsa65+Ed25519+Sha512"@,
    }
}

pub open spec fn pq_alg_name_of(alg: CompositeAlgId) -> Seq<char> {
    match alg {
        CompositeAlgId::IdMldsa44Ed25519Sha512 => "ML-DSA-44"@,
        CompositeAlgId::IdMldsa65Ed25519Sha512 => "ML-DSA-65"@,
    }
}

/// The algorithm whose name is `s`, if any.
pub open spec fn alg_from_name(s: Seq<char>) -> Option<CompositeAlgId> {
    if s == alg_name_of(CompositeAlgId::IdMldsa44Ed25519Sha512) {
        Some(CompositeAlgId::IdMldsa44Ed25519Sha512)
    } else if s == alg_name_of(CompositeAlgId::IdMldsa65Ed25519Sha512) {
        Some(CompositeAlgId::IdMldsa65Ed25519Sha512)
    } else {
        None
    }
}

pub const CLASSICAL_KEY_TYPE: &'static str = "Ed25519";

pub const CLASSICAL_ALG: &'static str = "EdDSA";

pub const PQ_KEY_TYPE: &'static str = "ML-DSA";

impl CompositeAlgId {
    /// The algorithm's name, as carried in the `alg` header parameter.
    pub fn name(&self) -> (r: &'static str)
        ensures
            r@ == alg_name_of(*self),
    {
        match self {
            CompositeAlgId::IdMldsa44Ed25519Sha512 => "Mldsa44+Ed25519+Sha512",
            CompositeAlgId::IdMldsa65Ed25519Sha512 => "Mldsa65+Ed25519+Sha512",
        }
    }

    /// Parses an algorithm name; `None` when it names no permitted pair.
    pub fn from_name(s: &str) -> (r: Option<CompositeAlgId>)
        ensures
            r == alg_from_name(s@),
    {
        let a = CompositeAlgId::IdMldsa44Ed25519Sha512;
        let b = CompositeAlgId::IdMldsa65Ed25519Sha512;
        if crate::text::str_eq(s, a.name()) {
            Some(a)
        } else if crate::text::str_eq(s, b.name()) {
            Some(b)
        } else {
            None
        }
    }

    /// The JWS algorithm of the post-quantum half.
    pub fn pq_alg(&self) -> (r: &'static str)
        ensures
            r@ == pq_alg_name_of(*self),
    {
        match self {
            CompositeAlgId::IdMldsa44Ed25519Sha512 => "ML-DSA-44",
            CompositeAlgId::IdMldsa65Ed25519Sha512 => "ML-DSA-65",
        }
    }

    /// The DER object identifier that prefixes the signing input.
    pub fn oid_prefix(&self) -> (r: Vec<u8>)
        ensures
            r@ == oid_prefix_of(*self),
            r@.len() == 13,
    {
        let last: u8 = match self {
            CompositeAlgId::IdMldsa44Ed25519Sha512 => 0x03,
            CompositeAlgId::IdMldsa65Ed25519Sha512 => 0x0A,
        };
        let r = vec![0x06u8, 0x0Bu8, 0x60u8, 0x86u8, 0x48u8, 0x01u8, 0x86u8, 0xFAu8, 0x6Bu8, 0x50u8, 0x08u8, 0x01u8, last];
        assert(r@ =~= oid_prefix_of(*self));
        r
    }
}

} // verus!
