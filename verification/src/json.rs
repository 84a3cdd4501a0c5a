//! JSON documents as `serde_json` reads them, and the few questions the
//! library asks of them.
//!
//! Nothing in this file is proved: every function here states what the
//! corresponding `serde_json` function does, over the model [`JsonTree`].

use vstd::prelude::*;

verus! {

/// The mathematical content of a JSON value.
///
/// A number is held as the text `serde_json` prints for it, a string as its
/// characters, an object as a map from member name to member value.
pub enum JsonTree {
    Null,
    Bool(bool),
    Number(Seq<char>),
    Text(Seq<char>),
    Array(Seq<JsonTree>),
    Object(Map<Seq<char>, JsonTree>),
}

/// `serde_json::Value`, carried as it is: what it holds is known only
/// through [`json_tree`].
#[verifier::external_type_specification]
#[verifier::external_body]
pub struct ExJsonValue(serde_json::Value);

/// `serde_json::Error`, carried as it is: what it reports is known only
/// through [`json_error_text`].
#[verifier::external_type_specification]
#[verifier::external_body]
pub struct ExJsonError(serde_json::Error);

/// What a `serde_json::Value` holds.
pub uninterp spec fn json_tree(v: serde_json::Value) -> JsonTree;

/// What `serde_json::from_str` reads from a text: the document, or, where
/// the text is not one JSON value, the words in which the parser reports
/// that.
pub uninterp spec fn json_document(text: Seq<char>) -> Result<JsonTree, Seq<char>>;

/// The words that a `serde_json::Error` prints: what is wrong, and for an
/// error in a text the line and the column.
pub uninterp spec fn json_error_text(e: serde_json::Error) -> Seq<char>;

/// The compact text that `serde_json` prints for a value.
///
/// The text is a function of the content because `serde_json` keeps the
/// members of an object ordered by key. That holds as this crate builds
/// it, without its `preserve_order` feature; with that feature the text
/// would follow the order of insertion, and this name would be wrong.
pub uninterp spec fn json_rendering(tree: JsonTree) -> Seq<char>;

/// `serde_json::from_str::<Value>`: succeeds exactly on the texts that
/// [`json_document`] accepts, and then returns that document; on every
/// other text it returns the error whose words [`json_document`] gives.
#[verifier::external_body]
pub(crate) fn parse_document(text: &str) -> (r: Result<serde_json::Value, serde_json::Error>)
    ensures
        match json_document(text@) {
            Ok(tree) => r matches Ok(v) && json_tree(v) == tree,
            Err(words) => r matches Err(e) && json_error_text(e) == words,
        },
{
    serde_json::from_str::<serde_json::Value>(text)
}

/// `Value::get` with a string key: the member of that name when the value is
/// an object that has one, `None` for every other value.
#[verifier::external_body]
pub(crate) fn value_member<'a>(v: &'a serde_json::Value, key: &str) -> (r: Option<&'a serde_json::Value>)
    ensures
        match json_tree(*v) {
            JsonTree::Object(members) => if members.contains_key(key@) {
                r matches Some(m) && json_tree(*m) == members[key@]
            } else {
                r is None
            },
            _ => r is None,
        },
{
    v.get(key)
}

/// `Value::as_array`: the elements, in order, when the value is an array.
#[verifier::external_body]
pub(crate) fn value_items<'a>(v: &'a serde_json::Value) -> (r: Option<&'a Vec<serde_json::Value>>)
    ensures
        match json_tree(*v) {
            JsonTree::Array(items) => r matches Some(a) && a@.len() == items.len() && forall|i: int|
                0 <= i < items.len() ==> json_tree(#[trigger] a@[i]) == items[i],
            _ => r is None,
        },
{
    v.as_array()
}

/// `Value::as_bool`: the boolean when the value is one.
#[verifier::external_body]
pub(crate) fn value_bool(v: &serde_json::Value) -> (r: Option<bool>)
    ensures
        match json_tree(*v) {
            JsonTree::Bool(b) => r == Some(b),
            _ => r is None,
        },
{
    v.as_bool()
}

/// `Value::as_str`: the characters when the value is a string.
#[verifier::external_body]
pub(crate) fn value_text<'a>(v: &'a serde_json::Value) -> (r: Option<&'a str>)
    ensures
        match json_tree(*v) {
            JsonTree::Text(t) => r matches Some(s) && s@ == t,
            _ => r is None,
        },
{
    v.as_str()
}

/// `Value::as_number` followed by `Number::to_string`: the printed number
/// when the value is one.
#[verifier::external_body]
pub(crate) fn value_number(v: &serde_json::Value) -> (r: Option<String>)
    ensures
        match json_tree(*v) {
            JsonTree::Number(t) => r matches Some(s) && s@ == t,
            _ => r is None,
        },
{
    match v.as_number() {
        Some(n) => Some(n.to_string()),
        None => None,
    }
}

/// `Error::to_string`: the words that the error prints.
#[verifier::external_body]
pub(crate) fn error_text(e: &serde_json::Error) -> (r: String)
    ensures
        r@ == json_error_text(*e),
{
    e.to_string()
}

/// `Value::is_null`.
#[verifier::external_body]
pub(crate) fn value_is_null(v: &serde_json::Value) -> (r: bool)
    ensures
        r == (json_tree(*v) is Null),
{
    v.is_null()
}

/// `Value::to_string`: the compact text of the value.
#[verifier::external_body]
pub(crate) fn value_rendering(v: &serde_json::Value) -> (r: String)
    ensures
        r@ == json_rendering(json_tree(*v)),
{
    v.to_string()
}

} // verus!
