//! The JSON layer: parsing the request body, looking up the payload's
//! string fields, and encoding the signed URL as a JSON string. The calls
//! into serde_json stand behind trusted items; the payload extraction on
//! top of them is verified.

use vstd::prelude::*;
use crate::payload::Payload;

verus! {

#[verifier::external_type_specification]
#[verifier::external_body]
pub struct ExJsonValue(serde_json::Value);

/// What parsing a text as JSON yields: on success, the document's top-level
/// fields that hold strings, as a map from field name to field value; on
/// failure, the parser's error message.
pub uninterp spec fn json_doc_of(s: Seq<char>) -> Result<Map<Seq<char>, Seq<char>>, Seq<char>>;

/// The top-level fields of a parsed JSON document that hold strings, as a
/// map from field name to field value.
pub uninterp spec fn value_str_fields(v: serde_json::Value) -> Map<Seq<char>, Seq<char>>;

/// What encoding a text as a JSON string yields: the encoded text, or an
/// error message.
pub uninterp spec fn json_string_of(s: Seq<char>) -> Result<Seq<char>, Seq<char>>;

/// Relies on serde_json::from_str::<Value>: the outcome is a function of the
/// input text alone, and a parse error's message is never empty.
#[verifier::external_body]
pub(crate) fn parse_json(s: &str) -> (r: Result<serde_json::Value, String>)
    ensures
        r is Ok <==> json_doc_of(s@) is Ok,
        r matches Ok(v) ==> (json_doc_of(s@) matches Ok(f) && value_str_fields(v) == f),
        r matches Err(m) ==> (json_doc_of(s@) matches Err(em) && m@ == em && m@.len() > 0),
{
    serde_json::from_str::<serde_json::Value>(s).map_err(|e| e.to_string())
}

/// Relies on serde_json::Value::get and Value::as_str: looks a top-level
/// field up and hands it out when it holds a string.
#[verifier::external_body]
pub(crate) fn value_string_field(v: &serde_json::Value, key: &str) -> (r: Option<String>)
    ensures
        r is Some <==> value_str_fields(*v).contains_key(key@),
        r matches Some(s) ==> s@ == value_str_fields(*v)[key@],
{
    v.get(key).and_then(serde_json::Value::as_str).map(str::to_owned)
}

/// Relies on serde_json::to_string on a string slice: the outcome is a
/// function of the input's characters alone.
#[verifier::external_body]
pub(crate) fn json_encode_str(s: &str) -> (r: Result<String, String>)
    ensures
        r is Ok <==> json_string_of(s@) is Ok,
        r matches Ok(t) ==> (json_string_of(s@) matches Ok(e) && t@ == e),
        r matches Err(m) ==> (json_string_of(s@) matches Err(em) && m@ == em),
{
    serde_json::to_string(s).map_err(|e| e.to_string())
}

/// A parsed document carries the payload: both names are present as strings.
pub open spec fn has_payload_fields(f: Map<Seq<char>, Seq<char>>) -> bool {
    f.contains_key("bar_name"@) && f.contains_key("drink_name"@)
}

/// Reads the payload out of a parsed JSON document: both fields must be
/// present and hold strings.
pub fn extract_payload(doc: &serde_json::Value) -> (r: Option<Payload>)
    ensures
        r is Some <==> has_payload_fields(value_str_fields(*doc)),
        r matches Some(p) ==> p.bar_name@ == value_str_fields(*doc)["bar_name"@]
            && p.drink_name@ == value_str_fields(*doc)["drink_name"@],
{
    let bar = value_string_field(doc, "bar_name");
    let drink = value_string_field(doc, "drink_name");
    match (bar, drink) {
        (Some(bar_name), Some(drink_name)) => Some(Payload { bar_name, drink_name }),
        _ => None,
    }
}

} // verus!
