//! The trusted boundary to the wire-format library.  Decoding and encoding
//! of JSON text are consumed as a pure capability: each direction is one
//! call into serde_json, named at the specification level and otherwise
//! opaque.  Everything the engine decides about a decoded tree, and
//! everything it assembles before encoding, is verified against the value
//! model in `types`.

use vstd::prelude::*;
use crate::types::JsonValue as LibJson;

verus! {

#[verifier::external_type_specification]
#[verifier::external_body]
/// serde_json's dynamic value tree, opaque to the verifier; it only ever
/// passes between the two conversion helpers below.
pub struct ExJsonValue(serde_json::Value);

/// What decoding a given text yields: `None` for text that is not JSON or
/// that uses a number outside the value model's integer range, otherwise
/// the decoded value.  Decoding is a function of the text alone.
pub uninterp spec fn json_decoded(text: Seq<char>) -> Option<crate::types::ValueView>;

/// The text that encoding a given value yields.  Encoding is a function of
/// the value alone.
pub uninterp spec fn json_encoded(v: crate::types::ValueView) -> Seq<char>;

/// Converts serde_json's tree into the library's value model.  No contract
/// of its own: it only ever runs inside `decode_text`, whose contract
/// covers the composition.  Returns `None` where the tree holds a number
/// that is not an `i64`.
#[verifier::external_body]
fn value_from_json(v: serde_json::Value) -> Option<LibJson> {
    match v {
        serde_json::Value::Null => Some(LibJson::Null),
        serde_json::Value::Bool(b) => Some(LibJson::Bool(b)),
        serde_json::Value::Number(n) => n.as_i64().map(LibJson::Number),
        serde_json::Value::String(s) => Some(LibJson::String(s)),
        serde_json::Value::Array(a) => a.into_iter().map(value_from_json).collect::<Option<
            Vec<_>,
        >>().map(LibJson::Array),
        serde_json::Value::Object(m) => m.into_iter().map(
            |(k, x)| Some((k, value_from_json(x)?)),
        ).collect::<Option<Vec<_>>>().map(LibJson::Object),
    }
}

/// Converts the library's value model into serde_json's tree, preserving
/// object entry order.  No contract of its own: it only ever runs inside
/// `encode_value`, whose contract covers the composition.
#[verifier::external_body]
fn value_to_json(v: &LibJson) -> serde_json::Value {
    match v {
        LibJson::Null => serde_json::Value::Null,
        LibJson::Bool(b) => serde_json::Value::Bool(*b),
        LibJson::Number(n) => serde_json::Value::Number(serde_json::Number::from(*n)),
        LibJson::String(s) => serde_json::Value::String(s.clone()),
        LibJson::Array(a) => serde_json::Value::Array(a.iter().map(value_to_json).collect()),
        LibJson::Object(m) => serde_json::Value::Object(
            m.iter().map(|(k, x)| (k.clone(), value_to_json(x))).collect(),
        ),
    }
}

/// Relies on serde_json::from_str: decoding JSON text is deterministic in
/// the text, and object entry order is kept as it stands in the document.
#[verifier::external_body]
pub fn decode_text(text: &str) -> (r: Option<crate::types::JsonValue>)
    ensures
        match r {
            Option::Some(v) => json_decoded(text@) == Option::Some(v.deep_view()),
            Option::None => json_decoded(text@) is None,
        },
{
    match serde_json::from_str::<serde_json::Value>(text) {
        Ok(v) => value_from_json(v),
        Err(_) => None,
    }
}

/// Relies on serde_json::to_string: encoding is deterministic in the value,
/// emits object entries in their stored order, and cannot fail on a tree
/// whose keys are strings.
#[verifier::external_body]
pub fn encode_value(v: &crate::types::JsonValue) -> (r: String)
    ensures
        r@ == json_encoded(v.deep_view()),
{
    serde_json::to_string(&value_to_json(v)).unwrap_or_default()
}

} // verus!
