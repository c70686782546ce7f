use vstd::prelude::*;
use vstd::utf8::encode_utf8;
use crate::alg::oid_prefix_of;
use crate::document::{Document, Jwk, MethodData, VerificationMethod};
use crate::external::{b64url, b64url_of, sha512, sha512_of, utf8_text};
use crate::handle::split_paired_handle;
use crate::header::{build_header, header_json, header_json_of, header_matches, JwsHeader, JwsSignatureOptions};
use crate::method::{fingerprint_of, method_fingerprint, strip_hash};
use crate::text::{concat, split_once_of};

verus! {

/// Why a JWS could not be produced.
#[derive(Debug)]
pub enum SignError {
    MethodNotFound,
    NotCompositePublicKey,
    MalformedKeyHandle,
    KeyIdStorage(String),
    KeyStorage(String),
    Encoding(EncodingFault),
    ClaimsSerialization(String),
}

#[derive(Debug, Clone, Copy, PartialEq, Eq, Structural)]
pub enum EncodingFault {
    /// A JWT cannot carry a detached payload.
    DetachedJwt,
    /// A JWT must be base64url encoded.
    UnencodedJwt,
    /// An unencoded payload that is to be carried must be UTF-8 text.
    PayloadNotText,
}

/// The header's segment of the compact serialization.
pub open spec fn encoded_header_of(h: JwsHeader) -> Seq<char> {
    b64url_of(encode_utf8(header_json_of(h)))
}

/// The JWS signing input: encoded header, `.`, and the payload, base64url
/// encoded unless the header turns encoding off.
pub open spec fn jws_signing_input_of(h: JwsHeader, payload: Seq<u8>) -> Seq<u8> {
    encode_utf8(encoded_header_of(h)) + seq![0x2Eu8] + (if h.b64 == Some(false) {
        payload
    } else {
        encode_utf8(b64url_of(payload))
    })
}

/// What both halves of a hybrid signature sign: the algorithm's object
/// identifier followed by the SHA-512 digest of the JWS signing input.
pub open spec fn hybrid_signing_input_of(h: JwsHeader, payload: Seq<u8>) -> Seq<u8> {
    oid_prefix_of(h.alg) + sha512_of(jws_signing_input_of(h, payload))
}

pub open spec fn jwk_view(j: Jwk) -> (Option<Seq<char>>, Seq<char>) {
    (match j.kid {
        Some(k) => Some(k@),
        None => None,
    }, j.json@)
}

/// The method id of a fragment in a document.
pub open spec fn method_id_of(doc_id: Seq<char>, fragment: Seq<char>) -> Seq<char> {
    doc_id + seq!['#'] + fragment
}

/// Everything a hybrid JWS needs but the two signatures.
pub struct JwsSigningPlan {
    pub header: JwsHeader,
    /// Fingerprint under which the method's paired key handle is stored.
    pub method_fingerprint: Vec<u8>,
    pub classical_jwk: Jwk,
    pub pq_jwk: Jwk,
    /// What both keys sign.
    pub signing_input: Vec<u8>,
    pub encoded_header: String,
    /// The payload's segment; empty when the payload is detached.
    pub payload_segment: String,
}

/// The compact serialization: header, payload and signature segments.
pub open spec fn compact_of(p: JwsSigningPlan, sig_classical: Seq<u8>, sig_pq: Seq<u8>) -> Seq<char> {
    p.encoded_header@ + seq!['.'] + p.payload_segment@ + seq!['.'] + b64url_of(sig_classical + sig_pq)
}

/// The plan for signing `payload` with the method `m` of a document with
/// id `doc_id`.
pub open spec fn plan_matches(
    p: JwsSigningPlan,
    doc_id: Seq<char>,
    m: VerificationMethod,
    payload: Seq<u8>,
    o: JwsSignatureOptions,
) -> bool {
    &&& match m.data {
        MethodData::Composite(c) => jwk_view(p.classical_jwk) == jwk_view(c.classical)
            && jwk_view(p.pq_jwk) == jwk_view(c.pq) && header_matches(p.header, c.alg_id, method_id_of(doc_id, m.fragment@), o),
        _ => false,
    }
    &&& p.method_fingerprint@ == fingerprint_of(m)
    &&& p.signing_input@ == hybrid_signing_input_of(p.header, payload)
    &&& p.signing_input@.len() == 77
    &&& p.encoded_header@ == encoded_header_of(p.header)
    &&& (o.detached_payload ==> p.payload_segment@.len() == 0)
    &&& (!o.detached_payload && o.b64 != Some(false) ==> p.payload_segment@ == b64url_of(payload))
    &&& (!o.detached_payload && o.b64 == Some(false) ==> encode_utf8(p.payload_segment@) == payload)
}

pub(crate) fn copy_jwk(j: &Jwk) -> (r: Jwk)
    ensures
        jwk_view(r) == jwk_view(*j),
{
    let kid = match &j.kid {
        Some(k) => Some(k.clone()),
        None => None,
    };
    Jwk { kid, json: j.json.clone() }
}

fn append_bytes(v: &mut Vec<u8>, b: &[u8])
    ensures
        final(v)@ == old(v)@ + b@,
{
    let mut i: usize = 0;
    while i < b.len()
        invariant
            i <= b@.len(),
            v@ == old(v)@ + b@.take(i as int),
        decreases b@.len() - i,
    {
        v.push(b[i]);
        assert(b@.take(i as int + 1) =~= b@.take(i as int).push(b@[i as int]));
        i = i + 1;
    }
    assert(b@.take(b@.len() as int) =~= b@);
}

/// Computes the hybrid signing input of `payload` under header `h`.
pub fn hybrid_signing_input(h: &JwsHeader, encoded_header: &str, payload: &[u8]) -> (r: Vec<u8>)
    requires
        encoded_header@ == encoded_header_of(*h),
    ensures
        r@ == hybrid_signing_input_of(*h, payload@),
        r@.len() == 77,
{
    let mut input = encoded_header.as_bytes_vec();
    input.push(0x2Eu8);
    match h.b64 {
        Some(false) => append_bytes(&mut input, payload),
        _ => {
            let p = b64url(payload);
            append_bytes(&mut input, p.as_str().as_bytes());
        },
    }
    assert(input@ =~= jws_signing_input_of(*h, payload@));
    let digest = sha512(input.as_slice());
    let mut r = h.alg.oid_prefix();
    append_bytes(&mut r, digest.as_slice());
    r
}

impl Document {
    /// Prepares a hybrid JWS of `payload` with the composite method whose
    /// fragment is `fragment` (a leading `#` is ignored): the header, the
    /// signing input, and the fingerprint under which the paired key handle
    /// is to be looked up.
    pub fn prepare_jws(&self, fragment: &str, payload: &[u8], options: &JwsSignatureOptions) -> (r: Result<JwsSigningPlan, SignError>)
        ensures
            !self.has_fragment(strip_hash(fragment@)) ==> r matches Err(SignError::MethodNotFound),
            forall|i: int| 0 <= i < self.methods().len() && (#[trigger] self.methods()[i]).0.fragment@ == strip_hash(fragment@)
                ==> match r {
                    Ok(p) => plan_matches(p, self.spec_id(), self.methods()[i].0, payload@, *options),
                    Err(SignError::NotCompositePublicKey) => !(self.methods()[i].0.data is Composite),
                    Err(SignError::Encoding(EncodingFault::PayloadNotText)) => self.methods()[i].0.data is Composite
                        && !options.detached_payload && options.b64 == Some(false)
                        && forall|s: Seq<char>| encode_utf8(s) != payload@,
                    Err(_) => false,
                },
    {
        proof {
            use_type_invariant(self);
        }
        let f = crate::method::without_hash(fragment);
        let method = match self.resolve_method(f.as_str(), None) {
            Some(m) => m,
            None => return Err(SignError::MethodNotFound),
        };
        proof {
            let ms = self.methods();
            let i = choose|i: int| 0 <= i < ms.len() && (#[trigger] ms[i]).0 == *method && method.fragment@ == f@;
            assert forall|j: int| 0 <= j < ms.len() && (#[trigger] ms[j]).0.fragment@ == f@ implies ms[j].0 == *method by {
                if j < i {
                    assert(ms[j].0.fragment@ != ms[i].0.fragment@);
                } else if i < j {
                    assert(ms[i].0.fragment@ != ms[j].0.fragment@);
                }
            }
        }
        let composite = match &method.data {
            MethodData::Composite(c) => c,
            _ => return Err(SignError::NotCompositePublicKey),
        };
        let payload_segment = if options.detached_payload {
            String::new()
        } else {
            match options.b64 {
                Some(false) => match utf8_text(payload) {
                    Some(s) => s,
                    None => return Err(SignError::Encoding(EncodingFault::PayloadNotText)),
                },
                _ => b64url(payload),
            }
        };
        let mut method_id = self.id().to_string();
        method_id.append("#");
        method_id.append(method.fragment.as_str());
        proof {
            reveal_strlit("#");
        }
        let header = build_header(composite.alg_id, method_id.as_str(), options);
        let json = header_json(&header);
        let encoded_header = b64url(json.as_str().as_bytes());
        let signing_input = hybrid_signing_input(&header, encoded_header.as_str(), payload);
        let plan = JwsSigningPlan {
            header,
            method_fingerprint: method_fingerprint(method),
            classical_jwk: copy_jwk(&composite.classical),
            pq_jwk: copy_jwk(&composite.pq),
            signing_input,
            encoded_header,
            payload_segment,
        };
        assert(method_id@ =~= method_id_of(self.spec_id(), method.fragment@));
        assert(plan_matches(plan, self.spec_id(), *method, payload@, *options));
        Ok(plan)
    }
}

impl JwsSigningPlan {
    /// Splits the paired key handle found under the method's fingerprint into
    /// the classical and the post-quantum handle.
    pub fn key_handles(paired: &str) -> (r: Result<(String, String), SignError>)
        ensures
            match r {
                Ok((a, b)) => split_once_of(paired@, '~') == Some((a@, b@)),
                Err(e) => e is MalformedKeyHandle && split_once_of(paired@, '~').is_none(),
            },
    {
        match split_paired_handle(paired) {
            Some(pair) => Ok(pair),
            None => Err(SignError::MalformedKeyHandle),
        }
    }

    /// The compact JWS whose signature is the classical signature followed
    /// by the post-quantum one.
    pub fn finish(&self, sig_classical: &[u8], sig_pq: &[u8]) -> (r: String)
        ensures
            r@ == compact_of(*self, sig_classical@, sig_pq@),
    {
        let mut sig: Vec<u8> = Vec::new();
        append_bytes(&mut sig, sig_classical);
        append_bytes(&mut sig, sig_pq);
        let s = b64url(sig.as_slice());
        let mut r = self.encoded_header.clone();
        r.append(".");
        r.append(self.payload_segment.as_str());
        r.append(".");
        r.append(s.as_str());
        proof {
            reveal_strlit(".");
        }
        r
    }
}

/// Refuses options that a JWT cannot be signed with: a detached payload, or
/// `b64 = false`.
pub fn check_jwt_options(options: &JwsSignatureOptions) -> (r: Result<(), SignError>)
    ensures
        options.detached_payload ==> r matches Err(SignError::Encoding(EncodingFault::DetachedJwt)),
        !options.detached_payload && options.b64 == Some(false) ==> r matches Err(SignError::Encoding(EncodingFault::UnencodedJwt)),
        !options.detached_payload && options.b64 != Some(false) ==> r is Ok,
{
    if options.detached_payload {
        Err(SignError::Encoding(EncodingFault::DetachedJwt))
    } else if options.b64 == Some(false) {
        Err(SignError::Encoding(EncodingFault::UnencodedJwt))
    } else {
        Ok(())
    }
}

impl Document {
    /// Prepares a JWT over the claims `claims` (JSON text) with the
    /// composite method whose fragment is `fragment`.
    pub fn prepare_jwt(&self, fragment: &str, claims: &str, options: &JwsSignatureOptions) -> (r: Result<JwsSigningPlan, SignError>)
        ensures
            options.detached_payload ==> r matches Err(SignError::Encoding(EncodingFault::DetachedJwt)),
            !options.detached_payload && options.b64 == Some(false) ==> r matches Err(SignError::Encoding(EncodingFault::UnencodedJwt)),
            !options.detached_payload && options.b64 != Some(false) ==> {
                &&& (!self.has_fragment(strip_hash(fragment@)) ==> (r matches Err(SignError::MethodNotFound)))
                &&& forall|i: int| 0 <= i < self.methods().len() && (#[trigger] self.methods()[i]).0.fragment@ == strip_hash(fragment@)
                    ==> match r {
                        Ok(p) => plan_matches(p, self.spec_id(), self.methods()[i].0, encode_utf8(claims@), *options),
                        Err(SignError::NotCompositePublicKey) => !(self.methods()[i].0.data is Composite),
                        Err(_) => false,
                    }
            },
    {
        check_jwt_options(options)?;
        self.prepare_jws(fragment, claims.as_bytes(), options)
    }
}

} // verus!
