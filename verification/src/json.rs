//! JSON documents, parsed and held by the `serde_json` crate, and the model
//! of them that contracts speak of.

use vstd::prelude::*;

verus! {

/// Lets `serde_json::Value` stand in signatures and fields. What a value
/// holds is known through [`json_model`] alone.
#[verifier::external_type_specification]
#[verifier::external_body]
pub struct ExJsonValue(serde_json::Value);

/// The mathematical model of a JSON value.
pub enum JsonView {
    Null,
    Bool(bool),
    /// A number, by a code that two numbers share exactly when they are
    /// equal.
    Number(int),
    Text(Seq<char>),
    Array(Seq<JsonView>),
    Object(Map<Seq<char>, JsonView>),
}

impl JsonView {
    /// The member called `name`, if this is an object that has one.
    pub open spec fn field(self, name: Seq<char>) -> Option<JsonView> {
        match self {
            JsonView::Object(members) => if members.contains_key(name) {
                Some(members[name])
            } else {
                None
            },
            _ => None,
        }
    }

    /// The element at `index`, if this is an array that is long enough.
    pub open spec fn item(self, index: nat) -> Option<JsonView> {
        match self {
            JsonView::Array(items) => if index < items.len() {
                Some(items[index as int])
            } else {
                None
            },
            _ => None,
        }
    }
}

/// What a JSON value holds.
pub uninterp spec fn json_model(v: serde_json::Value) -> JsonView;

/// What parsing `text` as a JSON document gives: the document, or the
/// message of the parse error.
pub uninterp spec fn json_document(text: Seq<char>) -> Result<JsonView, Seq<char>>;

/// Whether a value that may be absent is modelled by `m`.
pub open spec fn models(v: Option<&serde_json::Value>, m: Option<JsonView>) -> bool {
    match v {
        Some(v) => m == Some(json_model(*v)),
        None => m is None,
    }
}

/// Calls `serde_json::from_str` for a `serde_json::Value`, and `to_string`
/// on its error. Trusted: the document, or the message of the error,
/// depends on the text alone.
#[verifier::external_body]
pub(crate) fn parse_json(text: &str) -> (r: Result<serde_json::Value, String>)
    ensures
        match r {
            Ok(v) => json_document(text@) == Ok::<JsonView, Seq<char>>(json_model(v)),
            Err(message) => json_document(text@) == Err::<JsonView, Seq<char>>(message@),
        },
{
    serde_json::from_str::<serde_json::Value>(text).map_err(|e| e.to_string())
}

/// Calls `serde_json::Value::get` with a string. Trusted: the result is the
/// member of that name if the value is an object that has one, and `None`
/// otherwise.
#[verifier::external_body]
pub(crate) fn json_field<'a>(v: &'a serde_json::Value, name: &str) -> (r: Option<
    &'a serde_json::Value,
>)
    ensures
        models(r, json_model(*v).field(name@)),
{
    v.get(name)
}

/// Calls `serde_json::Value::get` with a number. Trusted: the result is the
/// element at that index if the value is an array that is long enough, and
/// `None` otherwise; no array has an element at the index `usize::MAX`.
#[verifier::external_body]
pub(crate) fn json_item<'a>(v: &'a serde_json::Value, index: usize) -> (r: Option<
    &'a serde_json::Value,
>)
    ensures
        models(r, json_model(*v).item(index as nat)),
        r is Some ==> index < usize::MAX,
{
    v.get(index)
}

/// Calls `==` of `serde_json::Value`. Trusted: two values are equal exactly
/// when they hold the same.
#[verifier::external_body]
pub(crate) fn json_equal(a: &serde_json::Value, b: &serde_json::Value) -> (eq: bool)
    ensures
        eq == (json_model(*a) == json_model(*b)),
{
    a == b
}

/// Calls `clone` of `serde_json::Value`. Trusted: the copy holds the same.
#[verifier::external_body]
pub(crate) fn json_clone(v: &serde_json::Value) -> (copy: serde_json::Value)
    ensures
        json_model(copy) == json_model(*v),
{
    v.clone()
}

/// Formats a `serde_json::Value` with `{:?}`. Nothing is claimed of the
/// text.
#[verifier::external_body]
pub(crate) fn json_debug_text(v: &serde_json::Value) -> String {
    format!("{:?}", v)
}

} // verus!
