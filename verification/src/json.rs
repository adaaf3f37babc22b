//! JSON documents, held and taken apart by `serde_json`.
use serde_json::Value;
use vstd::prelude::*;

verus! {

/// `serde_json::Value`, a JSON document.
#[verifier::external_type_specification]
#[verifier::external_body]
pub struct ExValue(serde_json::Value);

/// `serde_json::Map`, the collection of the fields of a JSON object.
#[verifier::external_type_specification]
#[verifier::external_body]
#[verifier::reject_recursive_types(K)]
#[verifier::reject_recursive_types(V)]
pub struct ExMap<K, V>(serde_json::Map<K, V>);

/// A JSON document, as far as the provider tells documents apart.
pub enum JsonView {
    /// A string.
    Text(Seq<char>),
    /// An object, by the names of its fields.
    Object(Map<Seq<char>, JsonView>),
    /// A null, a boolean, a number or an array, kept whole.
    Other(serde_json::Value),
}

/// What a JSON document holds.
pub uninterp spec fn json_view(value: serde_json::Value) -> JsonView;

/// What the collection of an object's fields holds.
pub uninterp spec fn json_fields(fields: serde_json::Map<String, serde_json::Value>) -> Map<
    Seq<char>,
    JsonView,
>;

/// What `serde_json::from_slice` makes of some bytes: a document, or nothing
/// where they are not JSON.
pub uninterp spec fn json_of(bytes: Seq<u8>) -> Option<JsonView>;

/// The field `name` of a document that is an object with that field.
pub open spec fn json_member(document: JsonView, name: Seq<char>) -> Option<JsonView> {
    match document {
        JsonView::Object(fields) if fields.contains_key(name) => Some(fields[name]),
        _ => None,
    }
}

/// The text of a document that is a string.
pub open spec fn json_text(document: JsonView) -> Option<Seq<char>> {
    match document {
        JsonView::Text(text) => Some(text),
        _ => None,
    }
}

/// The document that an object without fields is.
pub open spec fn no_fields() -> Map<Seq<char>, JsonView> {
    Map::empty()
}

/// Parses bytes with `serde_json::from_slice`. The document, or that there is
/// none, depends on the bytes alone. Which error the parser reports is left out.
#[verifier::external_body]
pub(crate) fn parse_json(bytes: &[u8]) -> (document: Option<Value>)
    ensures
        match document {
            Some(value) => json_of(bytes@) == Some(json_view(value)),
            None => json_of(bytes@) is None,
        },
{
    serde_json::from_slice::<Value>(bytes).ok()
}

/// Reads a field with `serde_json::Value::get`: there is one of that name where
/// the document is an object that holds it.
#[verifier::external_body]
pub(crate) fn value_get<'a>(document: &'a Value, name: &str) -> (field: Option<&'a Value>)
    ensures
        match field {
            Some(value) => json_member(json_view(*document), name@) == Some(json_view(*value)),
            None => json_member(json_view(*document), name@) is None,
        },
{
    document.get(name)
}

/// Reads a document with `serde_json::Value::as_object`: it gives the fields of
/// an object, and nothing for any other document.
#[verifier::external_body]
pub(crate) fn value_object(document: &Value) -> (fields: Option<&serde_json::Map<String, Value>>)
    ensures
        match fields {
            Some(fields) => json_view(*document) == JsonView::Object(json_fields(*fields)),
            None => !(json_view(*document) is Object),
        },
{
    document.as_object()
}

/// Reads a document with `serde_json::Value::as_str`: it gives the text of a
/// string, and nothing for any other document.
#[verifier::external_body]
pub(crate) fn value_text(document: &Value) -> (text: Option<&str>)
    ensures
        match text {
            Some(text) => json_view(*document) == JsonView::Text(text@),
            None => !(json_view(*document) is Text),
        },
{
    document.as_str()
}

/// Makes a document with `serde_json::Value::from`: the string `text`.
#[verifier::external_body]
pub(crate) fn text_value(text: &str) -> (document: Value)
    ensures
        json_view(document) == JsonView::Text(text@),
{
    Value::from(text)
}

/// Makes a document with `serde_json::Value::from`: the object with the given
/// fields.
#[verifier::external_body]
pub(crate) fn object_value(fields: serde_json::Map<String, Value>) -> (document: Value)
    ensures
        json_view(document) == JsonView::Object(json_fields(fields)),
{
    Value::from(fields)
}

/// Makes a collection with `serde_json::Map::new`: it holds no field.
#[verifier::external_body]
pub(crate) fn fields_new() -> (fields: serde_json::Map<String, Value>)
    ensures
        json_fields(fields) == no_fields(),
{
    serde_json::Map::new()
}

/// Reads a field with `serde_json::Map::get`.
#[verifier::external_body]
pub(crate) fn fields_get<'a>(
    fields: &'a serde_json::Map<String, Value>,
    name: &str,
) -> (field: Option<&'a Value>)
    ensures
        match field {
            Some(value) => json_fields(*fields).contains_key(name@) && json_fields(*fields)[name@]
                == json_view(*value),
            None => !json_fields(*fields).contains_key(name@),
        },
{
    fields.get(name)
}

/// Sets a field with `serde_json::Map::insert`: it is added, or takes the place
/// of the field of that name; every other field stays.
#[verifier::external_body]
pub(crate) fn fields_insert(
    fields: &mut serde_json::Map<String, Value>,
    name: String,
    value: Value,
)
    ensures
        json_fields(*final(fields)) == json_fields(*old(fields)).insert(name@, json_view(value)),
{
    fields.insert(name, value);
}

/// Copies a collection with the `clone` of `serde_json::Map`: the copy holds the
/// same fields.
#[verifier::external_body]
pub(crate) fn fields_clone(fields: &serde_json::Map<String, Value>) -> (copy: serde_json::Map<
    String,
    Value,
>)
    ensures
        json_fields(copy) == json_fields(*fields),
{
    fields.clone()
}

} // verus!
