//! A JSON asset value and the boundary to the `serde_json` crate: parsing
//! bytes into a JSON document and reading plain values back out of it.

use vstd::prelude::*;

verus! {

#[verifier::external_type_specification]
#[verifier::external_body]
pub struct ExJsonValue(serde_json::Value);

#[verifier::external_type_specification]
#[verifier::external_body]
pub struct ExJsonError(serde_json::Error);

/// Whether a byte string parses as a JSON document: exactly the inputs
/// `serde_json::from_slice` accepts. Parsing is a function of the bytes
/// alone.
pub uninterp spec fn json_parse_ok(bytes: Seq<u8>) -> bool;

/// The JSON document a byte string parses to, when it parses at all.
pub uninterp spec fn json_value_of(bytes: Seq<u8>) -> serde_json::Value;

/// The value under a named top-level key of a JSON value: an entry of an
/// object that has one, nothing for a missing key or a non-object.
pub uninterp spec fn json_field_of(v: serde_json::Value, key: Seq<char>) -> Option<
    serde_json::Value,
>;

/// The content of a JSON string, nothing for any other kind of value.
pub uninterp spec fn json_str_of(v: serde_json::Value) -> Option<Seq<char>>;

/// A JSON number read as a u64, nothing for a number that does not fit
/// one or any other kind of value.
pub uninterp spec fn json_u64_of(v: serde_json::Value) -> Option<u64>;

/// A JSON boolean, nothing for any other kind of value.
pub uninterp spec fn json_bool_of(v: serde_json::Value) -> Option<bool>;

/// Relies on serde_json::from_slice: parses a byte string as a JSON
/// document, failing on exactly the inputs the parser does not accept.
/// The result depends on the bytes alone.
#[verifier::external_body]
fn parse_value(bytes: &[u8]) -> (r: Result<serde_json::Value, serde_json::Error>)
    ensures
        r is Ok <==> json_parse_ok(bytes@),
        r matches Ok(v) ==> v == json_value_of(bytes@),
{
    serde_json::from_slice(bytes)
}

/// Relies on serde_json::Value::get with a string index: the value under
/// a key of a JSON object, nothing for a missing key or a non-object.
/// The result depends on the value and the key alone.
#[verifier::external_body]
pub(crate) fn value_get_field<'a>(v: &'a serde_json::Value, name: &str) -> (r: Option<
    &'a serde_json::Value,
>)
    ensures
        match r {
            Some(f) => json_field_of(*v, name@) == Some(*f),
            None => json_field_of(*v, name@) is None,
        },
{
    v.get(name)
}

/// Relies on serde_json::Value::as_str: the content of a JSON string,
/// nothing for any other kind of value.
#[verifier::external_body]
pub(crate) fn value_as_str<'a>(v: &'a serde_json::Value) -> (r: Option<&'a str>)
    ensures
        match r {
            Some(s) => json_str_of(*v) == Some(s@),
            None => json_str_of(*v) is None,
        },
{
    v.as_str()
}

/// Relies on serde_json::Value::as_u64: a JSON number that is a
/// non-negative integer fitting a u64, nothing otherwise.
#[verifier::external_body]
pub(crate) fn value_as_u64(v: &serde_json::Value) -> (r: Option<u64>)
    ensures
        r == json_u64_of(*v),
{
    v.as_u64()
}

/// Relies on serde_json::Value::as_bool: a JSON boolean, nothing for any
/// other kind of value.
#[verifier::external_body]
pub(crate) fn value_as_bool(v: &serde_json::Value) -> (r: Option<bool>)
    ensures
        r == json_bool_of(*v),
{
    v.as_bool()
}

/// A JSON document loaded from an asset file.
pub struct Json(pub serde_json::Value);

/// The input was not accepted as JSON.
#[derive(Debug, Clone, Copy, PartialEq, Eq, Structural)]
pub struct JsonParseError;

impl Json {
    /// Parses the bytes of an asset file, failing on exactly the inputs
    /// `serde_json::from_slice` does not accept.
    pub fn parse(bytes: &[u8]) -> (r: Result<Json, JsonParseError>)
        ensures
            r is Ok <==> json_parse_ok(bytes@),
            r matches Ok(j) ==> j.0 == json_value_of(bytes@),
    {
        match parse_value(bytes) {
            Ok(v) => Ok(Json(v)),
            Err(_) => Err(JsonParseError),
        }
    }
}

} // verus!
