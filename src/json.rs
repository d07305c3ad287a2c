//! JSON documents as decoded from `json` and `jsonb` columns.
use vstd::prelude::*;

verus! {

broadcast use vstd::std_specs::vec::group_vec_axioms;

#[verifier::external_type_specification]
#[verifier::external_body]
pub struct ExJsonValue(serde_json::Value);

/// A parsed JSON document, as plain values.
#[derive(Debug, PartialEq)]
pub enum JsonTree {
    Null,
    Bool(bool),
    /// A number: as a `u64` where it is an integer in that range, as an `i64` where
    /// it is an integer in that range, and its decimal text.
    Number(Option<u64>, Option<i64>, String),
    Str(String),
    Array(Vec<JsonTree>),
    /// Members in the order serde_json's map keeps them, which need not be the
    /// document's.
    Object(Vec<(String, JsonTree)>),
}

/// A JSON document in the host's terms.
#[derive(Debug, PartialEq)]
pub enum JsonValue {
    Null,
    Bool(bool),
    /// A number that is an integer in the range of `u64`.
    UInt(u64),
    /// A negative integer in the range of `i64`.
    Int(i64),
    /// Any other number, kept as its decimal text.
    Float(String),
    Str(String),
    Array(Vec<JsonValue>),
    Object(Vec<(String, JsonValue)>),
}

/// Whether serde_json accepts the bytes as one JSON document.
pub uninterp spec fn json_accepts(b: Seq<u8>) -> bool;

/// The document serde_json parses from the bytes.
pub uninterp spec fn json_tree_of(b: Seq<u8>) -> JsonTree;

/// Relies on `serde_json::from_slice`: it parses a whole JSON document, and both
/// whether it succeeds and the document it gives depend on the bytes alone. The
/// document is converted by `tree_of_value`.
#[verifier::external_body]
fn parse_json(b: &[u8]) -> (r: Option<JsonTree>)
    ensures
        r is Some <==> json_accepts(b@),
        r matches Some(t) ==> t == json_tree_of(b@),
{
    serde_json::from_slice::<serde_json::Value>(b).ok().map(tree_of_value)
}

/// Relies on the variants of `serde_json::Value` and on `Number::as_u64`,
/// `Number::as_i64` and `Number`'s `Display`: one arm per variant, fields moved
/// over, children converted alike.
#[verifier::external_body]
fn tree_of_value(v: serde_json::Value) -> (r: JsonTree) {
    match v {
        serde_json::Value::Null => JsonTree::Null,
        serde_json::Value::Bool(b) => JsonTree::Bool(b),
        serde_json::Value::Number(n) => JsonTree::Number(n.as_u64(), n.as_i64(), n.to_string()),
        serde_json::Value::String(s) => JsonTree::Str(s),
        serde_json::Value::Array(a) => JsonTree::Array(a.into_iter().map(tree_of_value).collect()),
        serde_json::Value::Object(m) => JsonTree::Object(
            m.into_iter().map(|(k, x)| (k, tree_of_value(x))).collect(),
        ),
    }
}

/// The host value of a JSON number: an unsigned integer where it fits `u64`, else a
/// signed one where it fits `i64`, else its text as a floating-point number.
pub open spec fn number_value(as_u64: Option<u64>, as_i64: Option<i64>, text: String) -> JsonValue {
    match as_u64 {
        Some(u) => JsonValue::UInt(u),
        None => match as_i64 {
            Some(i) => JsonValue::Int(i),
            None => JsonValue::Float(text),
        },
    }
}

/// Chooses the host representation of a JSON number from its readings.
pub fn classify_number(as_u64: Option<u64>, as_i64: Option<i64>, text: String) -> (r: JsonValue)
    ensures
        r == number_value(as_u64, as_i64, text),
{
    match as_u64 {
        Some(u) => JsonValue::UInt(u),
        None => match as_i64 {
            Some(i) => JsonValue::Int(i),
            None => JsonValue::Float(text),
        },
    }
}

/// Whether `v` is the host value of `t`: null, booleans and strings map to
/// themselves, numbers by `number_value`, arrays element by element in order, and
/// objects member by member with the same keys in the same order.
pub open spec fn projects(t: JsonTree, v: JsonValue) -> bool
    decreases t,
    via projects_decreases
{
    match t {
        JsonTree::Null => v == JsonValue::Null,
        JsonTree::Bool(b) => v == JsonValue::Bool(b),
        JsonTree::Number(u, i, text) => v == number_value(u, i, text),
        JsonTree::Str(s) => v == JsonValue::Str(s),
        JsonTree::Array(ts) => match v {
            JsonValue::Array(vs) => ts@.len() == vs@.len() && forall|k: int|
                #![trigger ts@[k], vs@[k]]
                0 <= k < ts@.len() ==> projects(ts@[k], vs@[k]),
            _ => false,
        },
        JsonTree::Object(ms) => match v {
            JsonValue::Object(ns) => ms@.len() == ns@.len() && forall|k: int|
                #![trigger ms@[k], ns@[k]]
                0 <= k < ms@.len() ==> ms@[k].0 == ns@[k].0 && projects(ms@[k].1, ns@[k].1),
            _ => false,
        },
    }
}

/// The children of an array or object lie below it.
#[via_fn]
proof fn projects_decreases(t: JsonTree, v: JsonValue) {
    match t {
        JsonTree::Array(ts) => {
            assert forall|k: int| 0 <= k < ts@.len() implies decreases_to!(t => ts@[k]) by {
                assert(decreases_to!(t => ts));
                assert(decreases_to!(ts => ts@));
                assert(decreases_to!(ts@ => ts@[k]));
            }
        },
        JsonTree::Object(ms) => {
            assert forall|k: int| 0 <= k < ms@.len() implies decreases_to!(t => ms@[k].1) by {
                assert(decreases_to!(t => ms));
                assert(decreases_to!(ms => ms@));
                assert(decreases_to!(ms@ => ms@[k]));
                assert(decreases_to!(ms@[k] => ms@[k].1));
            }
        },
        _ => {},
    }
}

/// Two host values that hold the same document: arrays and objects member by
/// member, everything else equal.
pub open spec fn json_same(a: JsonValue, b: JsonValue) -> bool
    decreases a,
    via json_same_decreases
{
    match (a, b) {
        (JsonValue::Array(xs), JsonValue::Array(ys)) => xs@.len() == ys@.len() && forall|k: int|
            #![trigger xs@[k], ys@[k]]
            0 <= k < xs@.len() ==> json_same(xs@[k], ys@[k]),
        (JsonValue::Object(xs), JsonValue::Object(ys)) => xs@.len() == ys@.len() && forall|k: int|
            #![trigger xs@[k], ys@[k]]
            0 <= k < xs@.len() ==> xs@[k].0 == ys@[k].0 && json_same(xs@[k].1, ys@[k].1),
        _ => a == b,
    }
}

/// The members of an array or object value lie below it.
#[via_fn]
proof fn json_same_decreases(a: JsonValue, b: JsonValue) {
    match a {
        JsonValue::Array(xs) => {
            assert forall|k: int| 0 <= k < xs@.len() implies decreases_to!(a => xs@[k]) by {
                assert(decreases_to!(a => xs));
                assert(decreases_to!(xs => xs@));
                assert(decreases_to!(xs@ => xs@[k]));
            }
        },
        JsonValue::Object(xs) => {
            assert forall|k: int| 0 <= k < xs@.len() implies decreases_to!(a => xs@[k].1) by {
                assert(decreases_to!(a => xs));
                assert(decreases_to!(xs => xs@));
                assert(decreases_to!(xs@ => xs@[k]));
                assert(decreases_to!(xs@[k] => xs@[k].1));
            }
        },
        _ => {},
    }
}

/// A document has one host value: any two projections of it hold the same values.
pub proof fn lemma_projection_unique(t: JsonTree, v1: JsonValue, v2: JsonValue)
    requires
        projects(t, v1),
        projects(t, v2),
    ensures
        json_same(v1, v2),
    decreases t,
{
    match t {
        JsonTree::Array(ts) => {
            let xs = v1->Array_0;
            let ys = v2->Array_0;
            assert forall|k: int| 0 <= k < xs@.len() implies json_same(xs@[k], ys@[k]) by {
                assert(decreases_to!(t => t->Array_0));
                assert(decreases_to!(ts => ts@));
                assert(decreases_to!(ts@ => ts@[k]));
                assert(projects(ts@[k], xs@[k]));
                assert(projects(ts@[k], ys@[k]));
                lemma_projection_unique(ts@[k], xs@[k], ys@[k]);
            }
        },
        JsonTree::Object(ms) => {
            let xs = v1->Object_0;
            let ys = v2->Object_0;
            assert forall|k: int| 0 <= k < xs@.len() implies xs@[k].0 == ys@[k].0 && json_same(
                xs@[k].1,
                ys@[k].1,
            ) by {
                assert(decreases_to!(t => t->Object_0));
                assert(decreases_to!(ms => ms@));
                assert(decreases_to!(ms@ => ms@[k]));
                assert(decreases_to!(ms@[k] => ms@[k].1));
                assert(ms@[k].0 == xs@[k].0 && projects(ms@[k].1, xs@[k].1));
                assert(ms@[k].0 == ys@[k].0 && projects(ms@[k].1, ys@[k].1));
                lemma_projection_unique(ms@[k].1, xs@[k].1, ys@[k].1);
            }
        },
        _ => {},
    }
}

/// The host value of a parsed document.
pub fn project_json(t: &JsonTree) -> (r: JsonValue)
    ensures
        projects(*t, r),
    decreases t,
{
    match t {
        JsonTree::Null => JsonValue::Null,
        JsonTree::Bool(b) => JsonValue::Bool(*b),
        JsonTree::Number(u, i, text) => classify_number(*u, *i, text.clone()),
        JsonTree::Str(s) => JsonValue::Str(s.clone()),
        JsonTree::Array(ts) => {
            let mut out: Vec<JsonValue> = Vec::new();
            let mut k: usize = 0;
            while k < ts.len()
                invariant
                    *t == JsonTree::Array(*ts),
                    k <= ts@.len(),
                    out@.len() == k,
                    forall|j: int|
                        #![trigger ts@[j], out@[j]]
                        0 <= j < k ==> projects(ts@[j], out@[j]),
                decreases ts@.len() - k,
            {
                proof {
                    assert(decreases_to!(*t => (*t)->Array_0));
                    assert(decreases_to!(*ts => ts@));
                    assert(decreases_to!(ts@ => ts@[k as int]));
                }
                out.push(project_json(&ts[k]));
                k = k + 1;
            }
            JsonValue::Array(out)
        },
        JsonTree::Object(ms) => {
            let mut out: Vec<(String, JsonValue)> = Vec::new();
            let mut k: usize = 0;
            while k < ms.len()
                invariant
                    *t == JsonTree::Object(*ms),
                    k <= ms@.len(),
                    out@.len() == k,
                    forall|j: int|
                        #![trigger ms@[j], out@[j]]
                        0 <= j < k ==> ms@[j].0 == out@[j].0 && projects(ms@[j].1, out@[j].1),
                decreases ms@.len() - k,
            {
                proof {
                    assert(decreases_to!(*t => (*t)->Object_0));
                    assert(decreases_to!(*ms => ms@));
                    assert(decreases_to!(ms@ => ms@[k as int]));
                    assert(decreases_to!(ms@[k as int] => ms@[k as int].1));
                }
                let v = project_json(&ms[k].1);
                out.push((ms[k].0.clone(), v));
                k = k + 1;
            }
            JsonValue::Object(out)
        },
    }
}

/// Why a JSON payload could not be decoded.
#[derive(Debug, Clone, Copy, PartialEq, Eq, Structural)]
pub enum JsonError {
    /// The payload is not one JSON document.
    Malformed,
    /// A binary payload that does not start with format version 1.
    UnsupportedVersion,
}

/// The JSON text of a payload: a binary (`jsonb`) payload starts with a format
/// version byte, which must be 1; a textual one is the text itself.
pub open spec fn json_text(raw: Seq<u8>, binary: bool) -> Option<Seq<u8>> {
    if !binary {
        Some(raw)
    } else if raw.len() > 0 && raw[0] == 1 {
        Some(raw.drop_first())
    } else {
        None
    }
}

/// What decoding a `json` (`binary == false`) or `jsonb` (`binary == true`)
/// payload gives.
pub open spec fn json_decodes(raw: Seq<u8>, binary: bool, r: Result<JsonValue, JsonError>) -> bool {
    match json_text(raw, binary) {
        None => r == Err::<JsonValue, JsonError>(JsonError::UnsupportedVersion),
        Some(t) => if json_accepts(t) {
            r matches Ok(v) && projects(json_tree_of(t), v)
        } else {
            r == Err::<JsonValue, JsonError>(JsonError::Malformed)
        },
    }
}

/// Decodes a `json` (`binary == false`) or `jsonb` (`binary == true`) payload.
pub fn decode_json(raw: &[u8], binary: bool) -> (r: Result<JsonValue, JsonError>)
    ensures
        json_decodes(raw@, binary, r),
{
    let text: &[u8] = if binary {
        if raw.len() == 0 || raw[0] != 1 {
            return Err(JsonError::UnsupportedVersion);
        }
        let t = vstd::slice::slice_subrange(raw, 1, raw.len());
        assert(t@ =~= raw@.drop_first());
        t
    } else {
        raw
    };
    match parse_json(text) {
        None => Err(JsonError::Malformed),
        Some(t) => Ok(project_json(&t)),
    }
}

} // verus!
