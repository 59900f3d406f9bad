//! Reading JSON documents with `serde_json`.
//!
//! The token endpoint answers with a JSON object whose members are
//! strings and numbers. This module parses the document and hands
//! out its members as plain values.

use serde_json::Value;
use vstd::prelude::*;

verus! {

/// `serde_json::Value`: a parsed JSON document.
#[verifier::external_type_specification]
#[verifier::external_body]
pub struct ExValue(Value);

/// `serde_json::Error`: why a text is not JSON.
#[verifier::external_type_specification]
#[verifier::external_body]
pub struct ExJsonError(serde_json::Error);

/// One member of a JSON object, as far as the token endpoint grammar
/// reads it.
pub enum JsonMember {
    /// The object has no member of that name.
    Absent,
    /// The member is `null`.
    Null,
    /// The member is a string.
    Text(String),
    /// The member is a number, given with its value if it is an
    /// integer from 0 to 2^64 - 1.
    Number(Option<u64>),
    /// The member is a boolean, an array or an object.
    Other,
}

/// A [`JsonMember`] in specifications.
pub enum JsonMemberView {
    Absent,
    Null,
    Text(Seq<char>),
    Number(Option<u64>),
    Other,
}

impl View for JsonMember {
    type V = JsonMemberView;

    open spec fn view(&self) -> JsonMemberView {
        match self {
            JsonMember::Absent => JsonMemberView::Absent,
            JsonMember::Null => JsonMemberView::Null,
            JsonMember::Text(text) => JsonMemberView::Text(text@),
            JsonMember::Number(number) => JsonMemberView::Number(*number),
            JsonMember::Other => JsonMemberView::Other,
        }
    }
}

/// The members of a JSON object by name.
pub type Members = Map<Seq<char>, JsonMemberView>;

/// The members that a parsed document holds. A document that is no
/// object holds none.
pub uninterp spec fn json_members(document: Value) -> Members;

/// The members of the document that a byte string spells, or `None`
/// if the bytes are not one JSON document.
pub uninterp spec fn json_document(bytes: Seq<u8>) -> Option<Members>;

/// The member of that name.
pub open spec fn member_of(members: Members, name: Seq<char>) -> JsonMemberView {
    if members.dom().contains(name) {
        members[name]
    } else {
        JsonMemberView::Absent
    }
}

/// `serde_json::from_slice::<Value>`: parses one JSON document, and
/// fails if the bytes are not JSON or if anything but whitespace
/// follows the document.
#[verifier::external_body]
pub(crate) fn parse_document(bytes: &[u8]) -> (parsed: Result<Value, serde_json::Error>)
    ensures
        match parsed {
            Ok(document) => json_document(bytes@) == Some(json_members(document)),
            Err(_) => json_document(bytes@) is None,
        },
{
    serde_json::from_slice::<Value>(bytes)
}

/// `Value::get` with a string index: the member of that name if the
/// document is an object that has one. The member is handed out by
/// its kind, a string with a copy of its text and a number through
/// `Number::as_u64`.
#[verifier::external_body]
pub(crate) fn lookup(document: &Value, name: &str) -> (member: JsonMember)
    ensures
        member@ == member_of(json_members(*document), name@),
{
    match document.get(name) {
        None => JsonMember::Absent,
        Some(Value::Null) => JsonMember::Null,
        Some(Value::String(text)) => JsonMember::Text(text.clone()),
        Some(Value::Number(number)) => JsonMember::Number(number.as_u64()),
        Some(_) => JsonMember::Other,
    }
}

} // verus!
