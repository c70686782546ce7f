use vstd::prelude::*;
use crate::alg::{alg_name_of, CompositeAlgId};
use crate::external::{json_string, json_string_of};

verus! {

/// Options of a JWS signature. A custom header parameter is a name and the
/// JSON text of its value.
pub struct JwsSignatureOptions {
    pub kid: Option<String>,
    pub b64: Option<bool>,
    pub typ: Option<String>,
    pub cty: Option<String>,
    pub url: Option<String>,
    pub nonce: Option<String>,
    pub detached_payload: bool,
    pub custom_header_parameters: Option<Vec<(String, String)>>,
}

/// The protected header of a hybrid JWS. `b64` is set only to `false`, and
/// then `crit` names it.
pub struct JwsHeader {
    pub alg: CompositeAlgId,
    pub kid: String,
    pub typ: String,
    pub cty: Option<String>,
    pub url: Option<String>,
    pub nonce: Option<String>,
    pub b64: Option<bool>,
    pub custom: Option<Vec<(String, String)>>,
}

pub open spec fn opt_text(o: Option<String>) -> Option<Seq<char>> {
    match o {
        Some(s) => Some(s@),
        None => None,
    }
}

pub open spec fn pair_views(v: Seq<(String, String)>) -> Seq<(Seq<char>, Seq<char>)> {
    v.map_values(|p: (String, String)| (p.0@, p.1@))
}

pub open spec fn opt_pairs(o: Option<Vec<(String, String)>>) -> Option<Seq<(Seq<char>, Seq<char>)>> {
    match o {
        Some(v) => Some(pair_views(v@)),
        None => None,
    }
}

/// The header that `options` ask for, for a method with id `method_id`.
pub open spec fn header_matches(h: JwsHeader, alg: CompositeAlgId, method_id: Seq<char>, o: JwsSignatureOptions) -> bool {
    &&& h.alg == alg
    &&& h.kid@ == (match o.kid {
        Some(k) => k@,
        None => method_id,
    })
    &&& h.typ@ == (match o.typ {
        Some(t) => t@,
        None => "JWT"@,
    })
    &&& opt_text(h.cty) == opt_text(o.cty)
    &&& opt_text(h.url) == opt_text(o.url)
    &&& opt_text(h.nonce) == opt_text(o.nonce)
    &&& h.b64 == (if o.b64 == Some(false) { Some(false) } else { None })
    &&& opt_pairs(h.custom) == opt_pairs(o.custom_header_parameters)
}

/// The view of a header: everything but the identity of its strings.
pub open spec fn header_view(h: JwsHeader) -> (CompositeAlgId, Seq<char>, Seq<char>, Option<Seq<char>>, Option<Seq<char>>, Option<Seq<char>>, Option<bool>, Option<Seq<(Seq<char>, Seq<char>)>>) {
    (h.alg, h.kid@, h.typ@, opt_text(h.cty), opt_text(h.url), opt_text(h.nonce), h.b64, opt_pairs(h.custom))
}

/// Header construction depends on the algorithm, the method id and the
/// options alone: two headers built from the same ones are the same.
pub proof fn lemma_header_deterministic(
    h1: JwsHeader,
    h2: JwsHeader,
    alg: CompositeAlgId,
    method_id: Seq<char>,
    o: JwsSignatureOptions,
)
    requires
        header_matches(h1, alg, method_id, o),
        header_matches(h2, alg, method_id, o),
    ensures
        header_view(h1) == header_view(h2),
        header_json_of(h1) == header_json_of(h2),
{
    lemma_json_from_view(h1, h2);
}

proof fn lemma_json_from_view(h1: JwsHeader, h2: JwsHeader)
    requires
        header_view(h1) == header_view(h2),
    ensures
        header_json_of(h1) == header_json_of(h2),
{
    assert(members_of(h1) == members_of(h2));
}

fn copy_opt(o: &Option<String>) -> (r: Option<String>)
    ensures
        opt_text(r) == opt_text(*o),
{
    match o {
        Some(s) => Some(s.clone()),
        None => None,
    }
}

fn copy_pairs(v: &Vec<(String, String)>) -> (r: Vec<(String, String)>)
    ensures
        pair_views(r@) == pair_views(v@),
{
    let mut r: Vec<(String, String)> = Vec::new();
    let mut i: usize = 0;
    while i < v.len()
        invariant
            i <= v@.len(),
            pair_views(r@) == pair_views(v@.take(i as int)),
        decreases v@.len() - i,
    {
        let k = v[i].0.clone();
        let x = v[i].1.clone();
        let ghost old_r = r@;
        r.push((k, x));
        proof {
            let e = (v@[i as int].0@, v@[i as int].1@);
            assert(pair_views(r@) =~= pair_views(old_r).push(e));
            assert(pair_views(v@.take(i as int + 1)) =~= pair_views(v@.take(i as int)).push(e));
        }
        i = i + 1;
    }
    assert(v@.take(v@.len() as int) =~= v@);
    r
}

/// Builds the protected header: `alg` from the method's algorithm pair, `kid`
/// from the options or else the method id, `typ` from the options or else
/// `JWT`, `b64 = false` with `crit` when the options turn encoding off, and
/// the remaining parameters as the options give them.
pub fn build_header(alg: CompositeAlgId, method_id: &str, options: &JwsSignatureOptions) -> (h: JwsHeader)
    ensures
        header_matches(h, alg, method_id@, *options),
{
    let kid = match &options.kid {
        Some(k) => k.clone(),
        None => method_id.to_string(),
    };
    let typ = match &options.typ {
        Some(t) => t.clone(),
        None => "JWT".to_string(),
    };
    let b64 = match options.b64 {
        Some(false) => Some(false),
        _ => None,
    };
    let custom = match &options.custom_header_parameters {
        Some(v) => Some(copy_pairs(v)),
        None => None,
    };
    JwsHeader {
        alg,
        kid,
        typ,
        cty: copy_opt(&options.cty),
        url: copy_opt(&options.url),
        nonce: copy_opt(&options.nonce),
        b64,
        custom,
    }
}

/// One JSON object member, its value given as JSON text.
pub open spec fn member(name: Seq<char>, value_json: Seq<char>) -> Seq<char> {
    json_string_of(name) + seq![':'] + value_json
}

pub open spec fn opt_member(name: Seq<char>, o: Option<Seq<char>>) -> Seq<Seq<char>> {
    match o {
        Some(s) => seq![member(name, json_string_of(s))],
        None => seq![],
    }
}

pub open spec fn custom_members(v: Seq<(Seq<char>, Seq<char>)>) -> Seq<Seq<char>> {
    v.map_values(|p: (Seq<char>, Seq<char>)| member(p.0, p.1))
}

/// The members of the header's JSON object, in order.
pub open spec fn members_of(h: JwsHeader) -> Seq<Seq<char>> {
    seq![
        member("alg"@, json_string_of(alg_name_of(h.alg))),
        member("kid"@, json_string_of(h.kid@)),
        member("typ"@, json_string_of(h.typ@)),
    ] + opt_member("cty"@, opt_text(h.cty)) + opt_member("url"@, opt_text(h.url)) + opt_member("nonce"@, opt_text(h.nonce)) + (if h.b64 == Some(false) {
        seq![member("b64"@, "false"@), member("crit"@, "[\"b64\"]"@)]
    } else {
        seq![]
    }) + (match opt_pairs(h.custom) {
        Some(v) => custom_members(v),
        None => seq![],
    })
}

/// Members joined by commas.
pub open spec fn join_members(ms: Seq<Seq<char>>) -> Seq<char>
    decreases ms.len(),
{
    if ms.len() == 0 {
        seq![]
    } else if ms.len() == 1 {
        ms[0]
    } else {
        join_members(ms.drop_last()) + seq![','] + ms.last()
    }
}

/// The header as a JSON object.
pub open spec fn header_json_of(h: JwsHeader) -> Seq<char> {
    seq!['{'] + join_members(members_of(h)) + seq!['}']
}

pub open spec fn views(v: Seq<String>) -> Seq<Seq<char>> {
    v.map_values(|s: String| s@)
}

fn member_text(name: &str, value_json: &str) -> (r: String)
    ensures
        r@ == member(name@, value_json@),
{
    let mut r = json_string(name);
    r.append(":");
    proof {
        reveal_strlit(":");
    }
    r.append(value_json);
    r
}

fn push_opt_member(ms: &mut Vec<String>, name: &str, o: &Option<String>)
    ensures
        views(final(ms)@) == views(old(ms)@) + opt_member(name@, opt_text(*o)),
{
    match o {
        Some(s) => {
            let v = json_string(s.as_str());
            let m = member_text(name, v.as_str());
            ms.push(m);
            assert(views(final(ms)@) =~= views(old(ms)@) + opt_member(name@, opt_text(*o)));
        },
        None => {
            assert(views(final(ms)@) =~= views(old(ms)@) + opt_member(name@, opt_text(*o)));
        },
    }
}

fn header_members(h: &JwsHeader) -> (r: Vec<String>)
    ensures
        views(r@) == members_of(*h),
{
    let mut ms: Vec<String> = Vec::new();
    let a = json_string(h.alg.name());
    ms.push(member_text("alg", a.as_str()));
    let k = json_string(h.kid.as_str());
    ms.push(member_text("kid", k.as_str()));
    let t = json_string(h.typ.as_str());
    ms.push(member_text("typ", t.as_str()));
    push_opt_member(&mut ms, "cty", &h.cty);
    push_opt_member(&mut ms, "url", &h.url);
    push_opt_member(&mut ms, "nonce", &h.nonce);
    let ghost before_b64 = views(ms@);
    match h.b64 {
        Some(false) => {
            ms.push(member_text("b64", "false"));
            ms.push(member_text("crit", "[\"b64\"]"));
        },
        _ => {},
    }
    let ghost before_custom = views(ms@);
    assert(before_custom =~= before_b64 + (if h.b64 == Some(false) {
        seq![member("b64"@, "false"@), member("crit"@, "[\"b64\"]"@)]
    } else {
        seq![]
    }));
    match &h.custom {
        Some(v) => {
            let mut i: usize = 0;
            while i < v.len()
                invariant
                    i <= v@.len(),
                    views(ms@) == before_custom + custom_members(pair_views(v@.take(i as int))),
                decreases v@.len() - i,
            {
                let ghost old_ms = ms@;
                let mt = member_text(v[i].0.as_str(), v[i].1.as_str());
                ms.push(mt);
                proof {
                    let e = member(v@[i as int].0@, v@[i as int].1@);
                    assert(views(ms@) =~= views(old_ms).push(e));
                    assert(pair_views(v@.take(i as int + 1)) =~= pair_views(v@.take(i as int)).push((v@[i as int].0@, v@[i as int].1@)));
                    assert(custom_members(pair_views(v@.take(i as int + 1))) =~= custom_members(pair_views(v@.take(i as int))).push(e));
                }
                i = i + 1;
            }
            assert(v@.take(v@.len() as int) =~= v@);
        },
        None => {},
    }
    assert(views(ms@) =~= members_of(*h));
    ms
}

/// Serializes the header as a JSON object.
pub fn header_json(h: &JwsHeader) -> (r: String)
    ensures
        r@ == header_json_of(*h),
{
    let ms = header_members(h);
    let mut r = "{".to_string();
    proof {
        reveal_strlit("{");
    }
    let mut i: usize = 0;
    while i < ms.len()
        invariant
            i <= ms@.len(),
            r@ == seq!['{'] + join_members(views(ms@).take(i as int)),
        decreases ms@.len() - i,
    {
        let ghost r0 = r@;
        if i > 0 {
            r.append(",");
        }
        r.append(ms[i].as_str());
        proof {
            let vs = views(ms@);
            let t1 = vs.take(i as int + 1);
            assert(t1.drop_last() =~= vs.take(i as int));
            assert(t1.last() == ms@[i as int]@);
            if i == 0 {
                assert(vs.take(0) =~= Seq::<Seq<char>>::empty());
                assert(r0 =~= seq!['{']);
                assert(r@ =~= seq!['{'] + join_members(t1));
            } else {
                reveal_strlit(",");
                assert(join_members(t1) == join_members(vs.take(i as int)) + seq![','] + ms@[i as int]@);
                assert(r@ =~= seq!['{'] + join_members(t1));
            }
        }
        i = i + 1;
    }
    r.append("}");
    proof {
        reveal_strlit("}");
    }
    assert(views(ms@).take(ms@.len() as int) =~= views(ms@));
    r
}

} // verus!
