use vstd::prelude::*;
use vstd::utf8::encode_utf8;
use crate::alg::{alg_name_of, CompositeAlgId};
use crate::document::{CompositePublicKey, Jwk, MethodData, VerificationMethod};
use crate::external::{sha512, sha512_of};
use crate::handle::paired_handle_of;

verus! {

pub open spec fn opt_view(o: Option<&str>) -> Option<Seq<char>> {
    match o {
        Some(s) => Some(s@),
        None => None,
    }
}

/// Fragment derived from the key ids of the two generated keys.
pub open spec fn kid_fragment_of(t: Option<Seq<char>>, pq: Option<Seq<char>>) -> Option<Seq<char>> {
    match (t, pq) {
        (Some(a), Some(b)) => Some(paired_handle_of(a, b)),
        (Some(a), None) => Some(a),
        (None, Some(b)) => Some(b),
        (None, None) => None,
    }
}

/// A fragment without its leading `#`, if it has one.
pub open spec fn strip_hash(f: Seq<char>) -> Seq<char> {
    if f.len() > 0 && f[0] == '#' {
        f.drop_first()
    } else {
        f
    }
}

/// The fragment of a new method: the caller's, else the one derived from the key ids.
pub open spec fn chosen_fragment(given: Option<Seq<char>>, t: Option<Seq<char>>, pq: Option<Seq<char>>) -> Option<Seq<char>> {
    match given {
        Some(g) => Some(strip_hash(g)),
        None => match kid_fragment_of(t, pq) {
            Some(k) => Some(strip_hash(k)),
            None => None,
        },
    }
}

pub open spec fn composite_type() -> Seq<char> {
    "CompositeSignaturePublicKey"@
}

pub(crate) fn without_hash(f: &str) -> (r: String)
    ensures
        r@ == strip_hash(f@),
{
    let n = f.unicode_len();
    if n > 0 && f.get_char(0) == '#' {
        let r = f.substring_char(1, n).to_string();
        assert(r@ =~= f@.drop_first());
        r
    } else {
        f.to_string()
    }
}

/// Resolves the fragment of a new method from the caller's choice and the
/// key ids of the two generated keys; `None` when there is nothing to use.
pub fn resolve_fragment(given: Option<&str>, t_kid: Option<&str>, pq_kid: Option<&str>) -> (r: Option<String>)
    ensures
        match r {
            Some(f) => chosen_fragment(opt_view(given), opt_view(t_kid), opt_view(pq_kid)) == Some(f@),
            None => chosen_fragment(opt_view(given), opt_view(t_kid), opt_view(pq_kid)).is_none(),
        },
{
    match given {
        Some(g) => Some(without_hash(g)),
        None => match (t_kid, pq_kid) {
            (Some(a), Some(b)) => {
                let k = crate::handle::pair_handles(a, b);
                Some(without_hash(k.as_str()))
            },
            (Some(a), None) => Some(without_hash(a)),
            (None, Some(b)) => Some(without_hash(b)),
            (None, None) => None,
        },
    }
}

/// Builds the composite verification method of a document.
pub fn composite_method(
    doc_id: &str,
    fragment: String,
    alg_id: CompositeAlgId,
    classical: Jwk,
    pq: Jwk,
) -> (m: VerificationMethod)
    ensures
        m.fragment@ == fragment@,
        m.controller@ == doc_id@,
        m.type_@ == composite_type(),
        m.data == MethodData::Composite(CompositePublicKey { alg_id, classical, pq }),
{
    let type_ = "CompositeSignaturePublicKey".to_string();
    VerificationMethod {
        fragment,
        controller: doc_id.to_string(),
        type_,
        data: MethodData::Composite(CompositePublicKey { alg_id, classical, pq }),
    }
}

/// The text a method's fingerprint is computed over.
pub open spec fn canonical_text(m: VerificationMethod) -> Seq<char> {
    let nl = seq!['\n'];
    let head = m.fragment@ + nl + m.type_@ + nl + m.controller@ + nl;
    match m.data {
        MethodData::PublicKeyJwk(j) => head + j.json@,
        MethodData::Composite(c) => head + alg_name_of(c.alg_id) + nl + c.classical.json@ + nl + c.pq.json@,
    }
}

/// A method's fingerprint: the SHA-512 digest of its canonical text.
pub open spec fn fingerprint_of(m: VerificationMethod) -> Seq<u8> {
    sha512_of(encode_utf8(canonical_text(m)))
}

/// Computes the fingerprint under which a method's key handle is stored.
pub fn method_fingerprint(m: &VerificationMethod) -> (r: Vec<u8>)
    ensures
        r@ == fingerprint_of(*m),
{
    let nl = "\n";
    proof {
        reveal_strlit("\n");
    }
    let mut s = m.fragment.clone();
    s.append(nl);
    s.append(m.type_.as_str());
    s.append(nl);
    s.append(m.controller.as_str());
    s.append(nl);
    match &m.data {
        MethodData::PublicKeyJwk(j) => {
            s.append(j.json.as_str());
        },
        MethodData::Composite(c) => {
            s.append(c.alg_id.name());
            s.append(nl);
            s.append(c.classical.json.as_str());
            s.append(nl);
            s.append(c.pq.json.as_str());
        },
    }
    assert(s@ =~= canonical_text(*m));
    sha512(s.as_str().as_bytes())
}

} // verus!
