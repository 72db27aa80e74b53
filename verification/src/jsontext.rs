use vstd::prelude::*;

use crate::jsonval::{JVal, JsonVal};

verus! {

#[verifier::external_type_specification]
#[verifier::external_body]
pub struct ExJsonValue(json::JsonValue);

#[verifier::external_type_specification]
#[verifier::external_body]
pub struct ExJsonObject(json::object::Object);

/// What `json::parse` yields on a given text, carried over into the crate's
/// JSON model: `None` where the text is not valid JSON or holds a number
/// outside `u32`, otherwise the document's value. `json::parse` computes
/// from its input text alone, so the outcome is a function of the text.
pub uninterp spec fn parsed_doc(s: Seq<char>) -> Option<JVal>;

/// Relies on `json::parse` for the JSON grammar; `convert` then maps the
/// parsed tree one-for-one into the crate's model.
#[verifier::external_body]
pub fn parse_doc(s: &str) -> (r: Option<JsonVal>)
    ensures
        match r {
            Some(v) => parsed_doc(s@) == Some(v@),
            None => parsed_doc(s@) is None,
        },
{
    match json::parse(s) {
        Ok(v) => convert(&v),
        Err(_) => None,
    }
}

/// Relies on `json::JsonValue`: tells its variants apart, one arm each, and
/// moves the scalar out; `as_u32` reads a number, `None` when it does not
/// fit. Only `parse_doc` calls this.
#[verifier::external_body]
fn convert(v: &json::JsonValue) -> Option<JsonVal> {
    match v {
        json::JsonValue::Null => Some(JsonVal::Null),
        json::JsonValue::Boolean(b) => Some(JsonVal::Bool(*b)),
        json::JsonValue::Number(_) => v.as_u32().map(JsonVal::Num),
        json::JsonValue::Short(s) => Some(JsonVal::Str(s.as_str().to_string())),
        json::JsonValue::String(s) => Some(JsonVal::Str(s.clone())),
        json::JsonValue::Array(a) => convert_arr(a),
        json::JsonValue::Object(o) => convert_obj(o),
    }
}

/// Relies on `Vec`'s iterator over `json::JsonValue` members: converts each
/// member in order. Only `convert` calls this.
#[verifier::external_body]
fn convert_arr(a: &Vec<json::JsonValue>) -> Option<JsonVal> {
    a.iter().map(convert).collect::<Option<Vec<JsonVal>>>().map(JsonVal::Arr)
}

/// Relies on `json::object::Object::iter`: yields the entries in insertion
/// order; converts each in order. Only `convert` calls this.
#[verifier::external_body]
fn convert_obj(o: &json::object::Object) -> Option<JsonVal> {
    o.iter().map(
        |e: (&str, &json::JsonValue)| convert(e.1).map(|cv| (e.0.to_string(), cv)),
    ).collect::<Option<Vec<(String, JsonVal)>>>().map(JsonVal::Obj)
}

} // verus!
