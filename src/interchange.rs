use vstd::prelude::*;

use crate::json::{json_model, Json, JsonModel};

verus! {

#[verifier::external_type_specification]
#[verifier::external_body]
pub struct ExValue(serde_json::Value);

/// The compact JSON text that serde_json writes for a value.
pub uninterp spec fn json_text(j: JsonModel) -> Seq<char>;

/// What serde_json reads from a text: the value, or none where the text is not JSON.
pub uninterp spec fn json_parse(s: Seq<char>) -> Option<JsonModel>;

/// Relies on serde_json's `Value` variants: the serde_json value that holds the same data.
#[verifier::external_body]
fn to_value(j: &Json) -> serde_json::Value {
    match j {
        Json::Null => serde_json::Value::Null,
        Json::Bool(b) => serde_json::Value::Bool(*b),
        Json::Number(n) => serde_json::Value::from(*n),
        Json::Str(s) => serde_json::Value::String(s.clone()),
        Json::Array(a) => serde_json::Value::Array(a.iter().map(to_value).collect()),
        Json::Object(ms) => serde_json::Value::Object(
            ms.iter().map(|m| (m.0.clone(), to_value(&m.1))).collect(),
        ),
    }
}

/// Relies on serde_json's `Value` variants and `Number::as_u64`: the same data as a `Json`;
/// a number that is no `u64` (negative or fractional) becomes null.
#[verifier::external_body]
fn from_value(v: &serde_json::Value) -> Json {
    match v {
        serde_json::Value::Null => Json::Null,
        serde_json::Value::Bool(b) => Json::Bool(*b),
        serde_json::Value::Number(n) => n.as_u64().map_or(Json::Null, Json::Number),
        serde_json::Value::String(s) => Json::Str(s.clone()),
        serde_json::Value::Array(a) => Json::Array(a.iter().map(from_value).collect()),
        serde_json::Value::Object(ms) => Json::Object(
            ms.iter().map(|m| (m.0.clone(), from_value(m.1))).collect(),
        ),
    }
}

/// Relies on serde_json's `Display` for `Value`: the compact text, a function of the value.
#[verifier::external_body]
pub(crate) fn write_json(j: &Json) -> (r: String)
    ensures
        r@ == json_text(json_model(*j)),
{
    to_value(j).to_string()
}

/// Relies on serde_json::from_str into a `Value`: it succeeds exactly on JSON text, and
/// what it reads depends on the text alone. The error carries serde_json's message.
#[verifier::external_body]
pub(crate) fn read_json(s: &str) -> (r: Result<Json, String>)
    ensures
        r is Ok <==> json_parse(s@) is Some,
        r matches Ok(j) ==> json_parse(s@) == Some(json_model(j)),
{
    match serde_json::from_str::<serde_json::Value>(s) {
        Ok(v) => Ok(from_value(&v)),
        Err(e) => Err(e.to_string()),
    }
}

} // verus!
