//! JSON documents, read with `serde_json`.
//!
//! A document is opaque to the verifier. What the library reads of one is
//! named here, and each function of `serde_json` that it calls is given a
//! contract over these names. The contracts are taken on trust.

use vstd::prelude::*;

verus! {

/// `serde_json::Value`: a parsed JSON document.
#[verifier::external_type_specification]
#[verifier::external_body]
pub struct ExValue(serde_json::Value);

/// `serde_json::Error`: why a text is no JSON document.
#[verifier::external_type_specification]
#[verifier::external_body]
pub struct ExJsonError(serde_json::Error);

/// What `serde_json::from_str` makes of a text: the document, or the error.
pub uninterp spec fn json_parse(text: Seq<char>) -> Result<serde_json::Value, serde_json::Error>;

/// The elements of a document that is an array; `None` for any other.
pub uninterp spec fn json_elements(doc: serde_json::Value) -> Option<Seq<serde_json::Value>>;

/// The member of a document that is an object, under a key; `None` where
/// the document is no object or the object has no such key.
pub uninterp spec fn json_member(doc: serde_json::Value, key: Seq<char>) -> Option<serde_json::Value>;

/// The text of a document that is a string; `None` for any other.
pub uninterp spec fn json_text(doc: serde_json::Value) -> Option<Seq<char>>;

/// The message of an error, as `serde_json` words it.
pub uninterp spec fn json_error_text(error: serde_json::Error) -> Seq<char>;

/// `serde_json::from_str` at the type `Value`. What comes back depends on
/// the text alone.
#[verifier::external_body]
pub(crate) fn parse(text: &str) -> (r: Result<serde_json::Value, serde_json::Error>)
    ensures
        r == json_parse(text@),
{
    serde_json::from_str::<serde_json::Value>(text)
}

/// `Value::as_array`: the vector of an array, and `None` for any other
/// document.
pub assume_specification<'a>[ serde_json::Value::as_array ](
    doc: &'a serde_json::Value,
) -> (r: Option<&'a Vec<serde_json::Value>>)
    ensures
        match r {
            Some(items) => json_elements(*doc) == Some(items@),
            None => json_elements(*doc) is None,
        },
;

/// `Value::as_str`: the text of a string, and `None` for any other document.
pub assume_specification<'a>[ serde_json::Value::as_str ](
    doc: &'a serde_json::Value,
) -> (r: Option<&'a str>)
    ensures
        match r {
            Some(s) => json_text(*doc) == Some(s@),
            None => json_text(*doc) is None,
        },
;

/// `Value::get` with a string as the index: the member of an object under
/// that key, and `None` where the document is no object or has no such key.
#[verifier::external_body]
pub(crate) fn member<'a>(
    doc: &'a serde_json::Value,
    key: &str,
) -> (r: Option<&'a serde_json::Value>)
    ensures
        match r {
            Some(m) => json_member(*doc, key@) == Some(*m),
            None => json_member(*doc, key@) is None,
        },
{
    doc.get(key)
}

/// The `to_string` of a `serde_json::Error`: its message.
#[verifier::external_body]
pub(crate) fn error_text(error: &serde_json::Error) -> (r: String)
    ensures
        r@ == json_error_text(*error),
{
    error.to_string()
}

} // verus!
