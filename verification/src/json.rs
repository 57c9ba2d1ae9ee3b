//! JSON documents as the decoder sees them.
//!
//! Parsing is left to `serde_json`. A parsed document is a `serde_json::Value`,
//! which the verifier treats as opaque; [`json_model`] gives it a mathematical
//! reading, and every function below that touches a `Value` is trusted to
//! behave as its contract says.

use vstd::prelude::*;

verus! {

/// Mathematical model of a JSON document.
pub enum Json {
    Null,
    Boolean(bool),
    /// A number written without fraction or exponent that fits in `i64` or `u64`.
    Integer(int),
    /// Any other number, by its decimal text.
    Real(Seq<char>),
    Text(Seq<char>),
    Array(Seq<Json>),
    Object(Map<Seq<char>, Json>),
}

impl Json {
    /// The JSON object without members, `{}`.
    pub open spec fn empty_object() -> Json {
        Json::Object(Map::empty())
    }

    /// The member `key` of an object; `None` for a missing key and for
    /// anything that is not an object.
    pub open spec fn member(self, key: Seq<char>) -> Option<Json> {
        match self {
            Json::Object(fields) => if fields.contains_key(key) {
                Some(fields[key])
            } else {
                None
            },
            _ => None,
        }
    }
}

/// `serde_json::Value`, a parsed document. Opaque to the verifier.
#[verifier::external_type_specification]
#[verifier::external_body]
pub struct ExValue(serde_json::Value);

/// `serde_json::Error`, the reason why a text was rejected. Opaque to the
/// verifier, and only ever handed on.
#[verifier::external_type_specification]
#[verifier::external_body]
pub struct ExJsonError(serde_json::Error);

/// The document that a `serde_json::Value` holds.
pub uninterp spec fn json_model(value: serde_json::Value) -> Json;

/// The document that `serde_json` reads from a text, `None` where it rejects
/// the text.
pub uninterp spec fn json_parse(text: Seq<char>) -> Option<Json>;

/// The text that `serde_json` prints for a document under `{:?}`.
pub uninterp spec fn json_debug_text(document: Json) -> Seq<char>;

/// `serde_json::from_str` at type `Value`. Trusted: the outcome depends on the
/// text alone, so it is named [`json_parse`]; and the text `{}` is read as the
/// object without members.
#[verifier::external_body]
pub(crate) fn parse_json(text: &str) -> (r: Result<serde_json::Value, serde_json::Error>)
    ensures
        match r {
            Ok(value) => json_parse(text@) == Some(json_model(value)),
            Err(_) => json_parse(text@) is None,
        },
        text@ == "{}"@ ==> r is Ok && json_model(r->Ok_0) == Json::empty_object(),
{
    serde_json::from_str::<serde_json::Value>(text)
}

/// `Value::get` with a string key. Trusted: it looks the key up in an object
/// and finds nothing in any other kind of value.
#[verifier::external_body]
pub(crate) fn member<'a>(value: &'a serde_json::Value, key: &str) -> (r: Option<
    &'a serde_json::Value,
>)
    ensures
        match r {
            Some(child) => json_model(*value).member(key@) == Some(json_model(*child)),
            None => json_model(*value).member(key@) is None,
        },
{
    value.get(key)
}

/// `Value::as_str`. Trusted: it hands out the text of a JSON string and
/// nothing for any other kind of value.
pub assume_specification<'a>[ serde_json::Value::as_str ](value: &'a serde_json::Value) -> (r:
    Option<&'a str>)
    ensures
        match r {
            Some(text) => json_model(*value) == Json::Text(text@),
            None => !(json_model(*value) is Text),
        },
;

/// `Value::as_u64`. Trusted: it hands out a non-negative integer and nothing
/// for a negative or non-integer number or any other kind of value.
pub assume_specification[ serde_json::Value::as_u64 ](value: &serde_json::Value) -> (r: Option<
    u64,
>)
    ensures
        match r {
            Some(n) => json_model(*value) == Json::Integer(n as int),
            None => !(json_model(*value) matches Json::Integer(i) && i >= 0),
        },
;

/// `Value::is_null`. Trusted: it tells `null` from every other value.
pub assume_specification[ serde_json::Value::is_null ](value: &serde_json::Value) -> (r: bool)
    ensures
        r == (json_model(*value) is Null),
;

/// `Value::as_array`. Trusted: it hands out the elements of a JSON array, in
/// order, and nothing for any other kind of value.
pub assume_specification<'a>[ serde_json::Value::as_array ](value: &'a serde_json::Value) -> (r:
    Option<&'a Vec<serde_json::Value>>)
    ensures
        match r {
            Some(items) => json_model(*value) matches Json::Array(elements)
                && elements.len() == items@.len()
                && forall|i: int|
                0 <= i < items@.len() ==> json_model(#[trigger] items@[i]) == elements[i],
            None => !(json_model(*value) is Array),
        },
;

/// `{:?}` on a `Value`. Trusted: the text depends on the document alone, so
/// it is named [`json_debug_text`].
#[verifier::external_body]
pub(crate) fn debug_text(value: &serde_json::Value) -> (r: String)
    ensures
        r@ == json_debug_text(json_model(*value)),
{
    format!("{:?}", value)
}

} // verus!
