//! The trusted boundary to the outside document parser: bytes go in, the
//! library's own document type comes out. Nothing downstream depends on
//! more than what these declarations state.

use vstd::prelude::*;
use crate::json::Json;

verus! {

#[verifier::external_type_specification]
#[verifier::external_body]
pub struct ExValue(serde_json::Value);

/// Relies on serde_json::Value: each variant is moved one-for-one into the
/// library's own document type; a number keeps its unsigned 64-bit reading
/// (serde_json::Number::as_u64) and nothing else, which is all the engine
/// ever consumes.
#[verifier::external_body]
fn json_from_value(v: serde_json::Value) -> Json {
    match v {
        serde_json::Value::Null => Json::Null,
        serde_json::Value::Bool(b) => Json::Bool(b),
        serde_json::Value::Number(n) => Json::Num(n.as_u64()),
        serde_json::Value::String(s) => Json::Str(s),
        serde_json::Value::Array(a) => Json::Arr(a.into_iter().map(json_from_value).collect()),
        serde_json::Value::Object(o) => Json::Obj(
            o.into_iter().map(|f| (f.0, json_from_value(f.1))).collect(),
        ),
    }
}

/// Relies on serde_json::from_slice: parses the bytes as one document, or
/// hands back the parser's message. The engine states nothing about which
/// document a given byte sequence yields; all decisions downstream of the
/// parse are verified for every possible document.
#[verifier::external_body]
pub(crate) fn parse_json(bytes: &[u8]) -> (r: Result<Json, String>) {
    match serde_json::from_slice::<serde_json::Value>(bytes) {
        Ok(v) => Ok(json_from_value(v)),
        Err(e) => Err(e.to_string()),
    }
}

} // verus!
