//! The document model for the catalog: a JSON tree held as plain values, and
//! the trusted bridge that obtains such a tree from `serde_json`.

use vstd::prelude::*;

verus! {

/// A JSON document as plain values. Numbers that are not unsigned 64-bit
/// integers are kept only as `OtherNumber`: the catalog never reads such a
/// number, it can only make a record ill-shaped.
pub enum JsonValue {
    Null,
    Bool(bool),
    UInt(u64),
    OtherNumber,
    Text(String),
    Array(Vec<JsonValue>),
    Object(Vec<(String, JsonValue)>),
}

#[verifier::external_type_specification]
#[verifier::external_body]
pub struct ExValue(serde_json::Value);

#[verifier::external_type_specification]
#[verifier::external_body]
pub struct ExJsonError(serde_json::Error);

/// What parsing a text as JSON yields: `None` when the text is not a
/// well-formed JSON document, otherwise the document's tree. The result is a
/// function of the text alone.
pub uninterp spec fn spec_parse_json(s: Seq<char>) -> Option<JsonValue>;

/// Relies on the variants of `serde_json::Value` and on
/// `serde_json::Number::as_u64`: translates a parsed document one node for
/// one node into the plain model above.
#[verifier::external_body]
fn value_to_model(v: serde_json::Value) -> (r: JsonValue) {
    match v {
        serde_json::Value::Null => JsonValue::Null,
        serde_json::Value::Bool(b) => JsonValue::Bool(b),
        serde_json::Value::Number(n) => n.as_u64().map_or(JsonValue::OtherNumber, JsonValue::UInt),
        serde_json::Value::String(s) => JsonValue::Text(s),
        serde_json::Value::Array(a) => JsonValue::Array(a.into_iter().map(value_to_model).collect()),
        serde_json::Value::Object(o) => JsonValue::Object(
            o.into_iter().map(|(k, inner)| (k, value_to_model(inner))).collect(),
        ),
    }
}

/// Relies on `serde_json::from_str`: it returns `Ok` exactly when its input
/// is a well-formed JSON document, and its result is a function of the input
/// text alone. `spec_parse_json` names the returned tree, translated into the
/// plain model.
#[verifier::external_body]
pub(crate) fn parse_json(text: &str) -> (r: Result<JsonValue, serde_json::Error>)
    ensures
        r is Ok <==> spec_parse_json(text@) is Some,
        r is Ok ==> r->Ok_0 == spec_parse_json(text@)->Some_0,
{
    match serde_json::from_str::<serde_json::Value>(text) {
        Ok(v) => Ok(value_to_model(v)),
        Err(e) => Err(e),
    }
}

/// The value of the first field named `key`, if the object has one.
pub open spec fn spec_field_of(fields: Seq<(String, JsonValue)>, key: Seq<char>) -> Option<
    JsonValue,
>
    decreases fields.len(),
{
    if fields.len() == 0 {
        None
    } else if fields[0].0@ == key {
        Some(fields[0].1)
    } else {
        spec_field_of(fields.drop_first(), key)
    }
}

/// Looks `key` up among an object's fields.
pub fn field_of<'a>(fields: &'a Vec<(String, JsonValue)>, key: &str) -> (r: Option<&'a JsonValue>)
    ensures
        match r {
            Some(v) => spec_field_of(fields@, key@) == Some(*v),
            None => spec_field_of(fields@, key@) is None,
        },
{
    let mut i: usize = 0;
    proof {
        assert(fields@.skip(0) =~= fields@);
    }
    while i < fields.len()
        invariant
            i <= fields@.len(),
            spec_field_of(fields@.skip(i as int), key@) == spec_field_of(fields@, key@),
        decreases fields@.len() - i,
    {
        proof {
            assert(fields@.skip(i as int)[0] == fields@[i as int]);
            assert(fields@.skip(i as int).drop_first() =~= fields@.skip(i as int + 1));
        }
        if crate::text::str_eq(fields[i].0.as_str(), key) {
            return Some(&fields[i].1);
        }
        i += 1;
    }
    proof {
        assert(fields@.skip(i as int).len() == 0);
    }
    None
}

} // verus!
