use vstd::prelude::*;
use serde_json::Value;

verus! {

/// A JSON value as the library holds it: plain Rust data, one variant per
/// JSON kind.  A number that fits an `i64` is carried as one — the wire
/// format of the dictionary service uses integer counts and identifiers —
/// and any other number is carried as its exact text, so that it can be
/// passed through or rendered but never read as an integer.
pub enum Json {
    Null,
    Bool(bool),
    Int(i64),
    Num(String),
    Str(String),
    Arr(Vec<Json>),
    Obj(Vec<(String, Json)>),
}

/// The value under `key` in an object's field list: the first pair whose
/// name equals `key`, if any.
pub open spec fn obj_lookup(fields: Seq<(String, Json)>, key: Seq<char>) -> Option<Json>
    decreases fields.len(),
{
    if fields.len() == 0 {
        None
    } else if fields[0].0@ == key {
        Some(fields[0].1)
    } else {
        obj_lookup(fields.drop_first(), key)
    }
}

proof fn lemma_obj_lookup_skip(fields: Seq<(String, Json)>, key: Seq<char>, i: int)
    requires
        0 <= i <= fields.len(),
        forall|k: int| 0 <= k < i ==> fields[k].0@ != key,
    ensures
        obj_lookup(fields, key) == obj_lookup(fields.skip(i), key),
    decreases i,
{
    if i > 0 {
        lemma_obj_lookup_skip(fields.drop_first(), key, i - 1);
        assert(fields.drop_first().skip(i - 1) =~= fields.skip(i));
    } else {
        assert(fields.skip(0) =~= fields);
    }
}

/// The first field named `key`, by reference.
pub fn obj_get<'a>(fields: &'a Vec<(String, Json)>, key: &String) -> (r: Option<&'a Json>)
    ensures
        match r {
            Some(j) => obj_lookup(fields@, key@) == Some(*j),
            None => obj_lookup(fields@, key@) is None,
        },
{
    let n = fields.len();
    for i in 0..n
        invariant
            n == fields@.len(),
            forall|k: int| 0 <= k < i ==> fields@[k].0@ != key@,
    {
        let pair = &fields[i];
        if pair.0 == *key {
            proof {
                lemma_obj_lookup_skip(fields@, key@, i as int);
                assert(fields@.skip(i as int)[0] == fields@[i as int]);
            }
            return Some(&pair.1);
        }
    }
    proof {
        lemma_obj_lookup_skip(fields@, key@, fields@.len() as int);
        assert(fields@.skip(fields@.len() as int) =~= Seq::<(String, Json)>::empty());
    }
    None
}

/// What parsing a body yields: `None` where the body is not valid JSON,
/// else the parsed tree.  Parsing is a function of the body alone.
pub uninterp spec fn json_of(s: Seq<char>) -> Option<Json>;

#[verifier::external_type_specification]
#[verifier::external_body]
pub struct ExValue(serde_json::Value);

/// Relies on `serde_json::from_str::<serde_json::Value>`: it parses the body
/// as generic JSON, deterministically in the body alone, and fails exactly
/// on bodies that are not valid JSON.
#[verifier::external_body]
pub(crate) fn parse_json(s: &str) -> (r: Option<Json>)
    ensures
        r is Some <==> json_of(s@) is Some,
        r matches Some(j) ==> json_of(s@) == Some(j),
{
    match serde_json::from_str::<serde_json::Value>(s) {
        Ok(v) => json_value_to_tree(&v),
        Err(_) => None,
    }
}

/// Relies on the shape of `serde_json::Value`: each variant is carried to
/// the matching variant of [`Json`], field for field.  A number is an
/// `Int` where `serde_json::Number::as_i64` reads it, else a `Num` holding
/// the deterministic text that the number's `Display` writes.
#[verifier::external_body]
fn json_value_to_tree(v: &Value) -> (r: Option<Json>) {
    match v {
        Value::Null => Some(Json::Null),
        Value::Bool(b) => Some(Json::Bool(*b)),
        Value::Number(n) => Some(
            n.as_i64().map_or_else(|| Json::Num(n.to_string()), Json::Int),
        ),
        Value::String(s) => Some(Json::Str(s.clone())),
        Value::Array(a) => a.iter().map(json_value_to_tree).collect::<Option<Vec<Json>>>().map(
            Json::Arr,
        ),
        Value::Object(m) => m.iter().map(
            |(k, x)| json_value_to_tree(x).map(|j| (k.clone(), j)),
        ).collect::<Option<Vec<(String, Json)>>>().map(Json::Obj),
    }
}

} // verus!
