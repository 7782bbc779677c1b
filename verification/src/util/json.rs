//! Reading single places of a JSON document.
use crate::model::scalar::Double;
use vstd::prelude::*;

verus! {

/// `serde_json::Value`: a parsed JSON document. Nothing is known of what is
/// inside one but through `json_leaf`.
#[verifier::external_type_specification]
#[verifier::external_body]
pub struct ExValue(serde_json::Value);

/// What stands at one place of a JSON document. A number is held as the
/// double that is nearest to it, where there is one; of an array or an
/// object only its kind is told.
#[derive(Debug)]
pub enum JsonLeaf {
    Missing,
    Null,
    Bool(bool),
    Number(Option<Double>),
    Text(String),
    Array,
    Object,
}

/// The document that a text spells, or `None` where it is not one JSON value.
pub uninterp spec fn json_document(text: Seq<char>) -> Option<serde_json::Value>;

/// What stands in `document` at the place that a JSON Pointer names.
pub uninterp spec fn json_leaf(document: serde_json::Value, pointer: Seq<char>) -> JsonLeaf;

/// `serde_json::from_str` to a `serde_json::Value`. The outcome depends on
/// the text alone; it is named `json_document`, and `None` stands for every
/// parse error.
#[verifier::external_body]
pub(crate) fn parse_document(text: &str) -> (document: Option<serde_json::Value>)
    ensures
        document == json_document(text@),
{
    match serde_json::from_str::<serde_json::Value>(text) {
        Ok(document) => Some(document),
        Err(_) => None,
    }
}

/// `serde_json::Value::pointer`, and the kind of what it found. The outcome
/// depends on the document and the pointer alone; it is named `json_leaf`.
/// A number comes through `serde_json::Number::as_f64`.
#[verifier::external_body]
pub(crate) fn leaf_at(document: &serde_json::Value, pointer: &str) -> (leaf: JsonLeaf)
    ensures
        leaf == json_leaf(*document, pointer@),
{
    match document.pointer(pointer) {
        None => JsonLeaf::Missing,
        Some(serde_json::Value::Null) => JsonLeaf::Null,
        Some(serde_json::Value::Bool(b)) => JsonLeaf::Bool(*b),
        Some(serde_json::Value::Number(n)) => JsonLeaf::Number(
            n.as_f64().map(|x| Double { bits: x.to_bits() }),
        ),
        Some(serde_json::Value::String(s)) => JsonLeaf::Text(s.clone()),
        Some(serde_json::Value::Array(_)) => JsonLeaf::Array,
        Some(serde_json::Value::Object(_)) => JsonLeaf::Object,
    }
}

/// What a place that may hold a text holds: `Some(None)` where nothing or
/// null stands there, `Some(Some(..))` for a text, `None` for anything else.
pub open spec fn optional_text(leaf: JsonLeaf) -> Option<Option<Seq<char>>> {
    match leaf {
        JsonLeaf::Missing | JsonLeaf::Null => Some(None),
        JsonLeaf::Text(text) => Some(Some(text@)),
        _ => None,
    }
}

/// What a place that may hold a number holds: `Some(None)` where nothing or
/// null stands there, `Some(Some(..))` for a number, `None` for anything
/// else.
pub open spec fn optional_number(leaf: JsonLeaf) -> Option<Option<Double>> {
    match leaf {
        JsonLeaf::Missing | JsonLeaf::Null => Some(None),
        JsonLeaf::Number(Some(number)) => Some(Some(number)),
        _ => None,
    }
}

/// The text at a place that may hold one.
pub fn read_optional_text(leaf: JsonLeaf) -> (r: Option<Option<String>>)
    ensures
        match r {
            Some(Some(text)) => optional_text(leaf) == Some(Some(text@)),
            Some(None) => optional_text(leaf) == Some(None::<Seq<char>>),
            None => optional_text(leaf) is None,
        },
{
    match leaf {
        JsonLeaf::Missing => Some(None),
        JsonLeaf::Null => Some(None),
        JsonLeaf::Text(text) => Some(Some(text)),
        _ => None,
    }
}

/// The number at a place that may hold one.
pub fn read_optional_number(leaf: &JsonLeaf) -> (r: Option<Option<Double>>)
    ensures
        r == optional_number(*leaf),
{
    match leaf {
        JsonLeaf::Missing => Some(None),
        JsonLeaf::Null => Some(None),
        JsonLeaf::Number(Some(number)) => Some(Some(*number)),
        _ => None,
    }
}

/// The pointer to the field `name` of what `prefix` points to.
pub open spec fn field_pointer(prefix: Seq<char>, name: Seq<char>) -> Seq<char> {
    prefix + "/"@ + name
}

/// What stands in the field `name` of what `prefix` points to.
pub fn field_at(document: &serde_json::Value, prefix: &str, name: &str) -> (leaf: JsonLeaf)
    ensures
        leaf == json_leaf(*document, field_pointer(prefix@, name@)),
{
    let mut pointer = prefix.to_owned();
    pointer.append("/");
    pointer.append(name);
    leaf_at(document, pointer.as_str())
}

} // verus!
