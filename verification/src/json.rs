//! JSON documents: a mathematical model of them, and the calls into
//! serde_json that build and write them.
//!
//! serde_json is built here without its `preserve_order` feature, so an
//! object is an ordered map by key and the text of a document depends on
//! nothing but what the document holds.

use vstd::prelude::*;

verus! {

/// What a JSON value holds.
pub enum JsonDoc {
    Null,
    Bool(bool),
    /// A whole number.
    Number(int),
    /// A number with a fraction or an exponent, by the text that stands for
    /// it in a written document.
    Real(Seq<char>),
    Text(Seq<char>),
    Array(Seq<JsonDoc>),
    /// The members of an object, by key.
    Object(Map<Seq<char>, JsonDoc>),
}

/// serde_json's `Value`, taken as opaque: all that is known of a value is
/// the document that `value_doc` names.
#[verifier::external_type_specification]
#[verifier::external_body]
pub struct ExValue(serde_json::Value);

/// serde_json's `Map`, taken as opaque: all that is known of a map are the
/// members that `object_fields` names.
#[verifier::external_type_specification]
#[verifier::external_body]
#[verifier::reject_recursive_types(K)]
#[verifier::reject_recursive_types(V)]
pub struct ExObject<K, V>(serde_json::Map<K, V>);

/// The document that a `serde_json::Value` holds.
pub uninterp spec fn value_doc(value: serde_json::Value) -> JsonDoc;

/// The members that a `serde_json::Map` holds, by key.
pub uninterp spec fn object_fields(object: serde_json::Map<String, serde_json::Value>) -> Map<
    Seq<char>,
    JsonDoc,
>;

/// The compact JSON text of a document, as serde_json writes it.
pub uninterp spec fn json_text(doc: JsonDoc) -> Seq<char>;

/// The number that serde_json reads from a text, as it holds it
/// afterwards; `None` where the text is no JSON number.
pub uninterp spec fn parsed_number(text: Seq<char>) -> Option<JsonDoc>;

/// The documents of a sequence of values, in order.
pub open spec fn value_docs(values: Seq<serde_json::Value>) -> Seq<JsonDoc> {
    Seq::new(values.len(), |i: int| value_doc(values[i]))
}

/// Makes `serde_json::Value::Null`. Trusted: it holds the null document.
#[verifier::external_body]
pub(crate) fn null_value() -> (value: serde_json::Value)
    ensures
        value_doc(value) == JsonDoc::Null,
{
    serde_json::Value::Null
}

/// Calls serde_json's `Value::from` on a `bool`. Trusted: the value holds
/// that boolean.
#[verifier::external_body]
pub(crate) fn bool_value(flag: bool) -> (value: serde_json::Value)
    ensures
        value_doc(value) == JsonDoc::Bool(flag),
{
    serde_json::Value::from(flag)
}

/// Calls serde_json's `Value::from` on a `u64`. Trusted: the value holds
/// that whole number.
#[verifier::external_body]
pub(crate) fn number_value(n: u64) -> (value: serde_json::Value)
    ensures
        value_doc(value) == JsonDoc::Number(n as int),
{
    serde_json::Value::from(n)
}

/// Calls serde_json's `Value::from` on a `&str`. Trusted: the value holds
/// that text.
#[verifier::external_body]
pub(crate) fn text_value(text: &str) -> (value: serde_json::Value)
    ensures
        value_doc(value) == JsonDoc::Text(text@),
{
    serde_json::Value::from(text)
}

/// Calls serde_json's `Value::from` on a `Vec<Value>`. Trusted: the value
/// holds the array of the items' documents, in order.
#[verifier::external_body]
pub(crate) fn array_value(items: Vec<serde_json::Value>) -> (value: serde_json::Value)
    ensures
        value_doc(value) == JsonDoc::Array(value_docs(items@)),
{
    serde_json::Value::from(items)
}

/// Calls serde_json's `Map::new`. Trusted: the map has no members.
#[verifier::external_body]
pub(crate) fn new_object() -> (object: serde_json::Map<String, serde_json::Value>)
    ensures
        object_fields(object) =~= Map::empty(),
{
    serde_json::Map::new()
}

/// Calls serde_json's `Map::insert`. Trusted: afterwards the map holds the
/// value's document under the key, in place of what stood there, and its
/// other members as before.
#[verifier::external_body]
pub(crate) fn put(
    object: &mut serde_json::Map<String, serde_json::Value>,
    key: &str,
    value: serde_json::Value,
)
    ensures
        object_fields(*final(object)) == object_fields(*old(object)).insert(key@, value_doc(value)),
{
    object.insert(key.to_owned(), value);
}

/// Calls serde_json's `Value::from` on a `Map`. Trusted: the value holds
/// the object with the map's members.
#[verifier::external_body]
pub(crate) fn object_value(object: serde_json::Map<String, serde_json::Value>) -> (value:
    serde_json::Value)
    ensures
        value_doc(value) == JsonDoc::Object(object_fields(object)),
{
    serde_json::Value::from(object)
}

/// Writes a value with the `Display` impl of `serde_json::Value`. Trusted:
/// the text is named `json_text` of the document that the value holds.
#[verifier::external_body]
pub(crate) fn render(value: &serde_json::Value) -> (text: String)
    ensures
        text@ == json_text(value_doc(*value)),
{
    value.to_string()
}

/// Calls the `FromStr` impl of `serde_json::Number`. Trusted: the outcome
/// is named `parsed_number` of the text.
#[verifier::external_body]
pub(crate) fn parse_number(text: &str) -> (value: Option<serde_json::Value>)
    ensures
        match value {
            Some(v) => parsed_number(text@) == Some(value_doc(v)),
            None => parsed_number(text@) is None,
        },
{
    match text.parse::<serde_json::Number>() {
        Ok(number) => Some(serde_json::Value::Number(number)),
        Err(_) => None,
    }
}

} // verus!
