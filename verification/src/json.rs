use vstd::prelude::*;

verus! {

/// Declares `serde_json::Value` so that it can stand in fields and
/// signatures. A value of it is opaque here: it is carried from the parsed
/// front matter, or from the host's book configuration, into the render
/// context without being inspected, except through the functions below.
#[verifier::external_type_specification]
#[verifier::external_body]
pub struct ExValue(serde_json::Value);

/// The characters of a JSON value when it is a string, `None` otherwise.
pub uninterp spec fn value_as_str(v: serde_json::Value) -> Option<Seq<char>>;

/// Whether a JSON value is null.
pub uninterp spec fn value_is_null(v: serde_json::Value) -> bool;

/// The JSON string value holding exactly the given characters.
pub uninterp spec fn json_str_of(s: Seq<char>) -> serde_json::Value;

/// The JSON object standing for one chapter: its name, path and content.
pub uninterp spec fn chapter_json_of(
    name: Seq<char>,
    path: Seq<char>,
    content: Seq<char>,
) -> serde_json::Value;

/// Relies on `serde_json::Value::as_str`: `Some` exactly when the value is a
/// JSON string, and then its characters; the result depends on the value alone.
#[verifier::external_body]
pub(crate) fn json_value_as_string(v: &serde_json::Value) -> (r: Option<String>)
    ensures
        (r is Some) == (value_as_str(*v) is Some),
        r matches Some(s) ==> value_as_str(*v) == Some(s@),
{
    v.as_str().map(|s| s.to_string())
}

/// Relies on `serde_json::Value::is_null`: true exactly for JSON null, and a
/// null is never a JSON string.
#[verifier::external_body]
pub(crate) fn json_value_is_null(v: &serde_json::Value) -> (r: bool)
    ensures
        r == value_is_null(*v),
        r ==> value_as_str(*v) is None,
{
    v.is_null()
}

/// Relies on `Clone` for `serde_json::Value`: the clone equals the original.
#[verifier::external_body]
pub(crate) fn clone_value(v: &serde_json::Value) -> (r: serde_json::Value)
    ensures
        r == *v,
{
    v.clone()
}

/// Relies on `serde_json::Value::String`: wraps the characters of the given
/// string as a JSON string value.
#[verifier::external_body]
pub(crate) fn json_string(s: &String) -> (r: serde_json::Value)
    ensures
        r == json_str_of(s@),
{
    serde_json::Value::String(s.clone())
}

/// Relies on `serde_json::Map::insert` and `serde_json::Value` construction:
/// builds the object `{"name": .., "path": .., "content": ..}` from the three
/// strings; the result depends on the three strings alone.
#[verifier::external_body]
pub(crate) fn chapter_json(name: &String, path: &String, content: &String) -> (r:
    serde_json::Value)
    ensures
        r == chapter_json_of(name@, path@, content@),
{
    let mut m = serde_json::Map::new();
    m.insert("name".to_string(), serde_json::Value::String(name.clone()));
    m.insert("path".to_string(), serde_json::Value::String(path.clone()));
    m.insert("content".to_string(), serde_json::Value::String(content.clone()));
    serde_json::Value::Object(m)
}

} // verus!
