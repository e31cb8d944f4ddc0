//! The JSON side of the bridge: what it reads of a payload, and the parser
//! that reads it.

use serde_json::Value;
use vstd::prelude::*;
use vstd::utf8::{decode_utf8, valid_utf8};

verus! {

/// What the bridge reads of one JSON value.
#[derive(Clone, Debug, PartialEq, Eq)]
pub enum JsonValue {
    /// A JSON number, as the numeral that the parser writes for it.
    Number(String),
    /// `true` or `false`.
    Bool(bool),
    /// A JSON string.
    Text(String),
    /// A value the bridge reads nothing of: `null`, an array, an object.
    Other,
}

/// The mathematical model of a [`JsonValue`].
pub enum JsonModel {
    Number(Seq<char>),
    Bool(bool),
    Text(Seq<char>),
    Other,
}

impl DeepView for JsonValue {
    type V = JsonModel;

    open spec fn deep_view(&self) -> JsonModel {
        match self {
            JsonValue::Number(numeral) => JsonModel::Number(numeral@),
            JsonValue::Bool(b) => JsonModel::Bool(*b),
            JsonValue::Text(s) => JsonModel::Text(s@),
            JsonValue::Other => JsonModel::Other,
        }
    }
}

/// One member of a JSON object.
#[derive(Clone, Debug, PartialEq, Eq)]
pub struct Member {
    pub name: String,
    pub value: JsonValue,
}

/// The mathematical model of a [`Member`].
pub struct MemberModel {
    pub name: Seq<char>,
    pub value: JsonModel,
}

impl DeepView for Member {
    type V = MemberModel;

    open spec fn deep_view(&self) -> MemberModel {
        MemberModel { name: self.name@, value: self.value.deep_view() }
    }
}

/// A payload after parsing.
#[derive(Clone, Debug, PartialEq, Eq)]
pub enum Document {
    /// The text is not JSON.
    Invalid,
    /// The text is JSON, but its top-level value is not an object.
    NotObject,
    /// The members of the top-level object, in the order the parser yields
    /// them.
    Object(Vec<Member>),
}

/// The mathematical model of a [`Document`].
pub enum DocumentModel {
    Invalid,
    NotObject,
    Object(Seq<MemberModel>),
}

impl DeepView for Document {
    type V = DocumentModel;

    open spec fn deep_view(&self) -> DocumentModel {
        match self {
            Document::Invalid => DocumentModel::Invalid,
            Document::NotObject => DocumentModel::NotObject,
            Document::Object(members) => DocumentModel::Object(members.deep_view()),
        }
    }
}

/// The members of a document: those of its object, and none where it has no
/// object.
pub open spec fn document_members(doc: DocumentModel) -> Seq<MemberModel> {
    match doc {
        DocumentModel::Object(members) => members,
        _ => Seq::empty(),
    }
}

/// The text that lossy UTF-8 decoding makes of `bytes`.
pub uninterp spec fn utf8_lossy(bytes: Seq<u8>) -> Seq<char>;

/// The document that the JSON parser makes of `text`.
pub uninterp spec fn json_document(text: Seq<char>) -> DocumentModel;

/// Calls `String::from_utf8_lossy`.
///
/// Trusted: the text depends on the bytes alone, and bytes that are valid
/// UTF-8 decode to the characters they encode. Invalid sequences become
/// U+FFFD, which the contract leaves to `utf8_lossy`.
#[verifier::external_body]
fn decode_lossy(bytes: &[u8]) -> (text: String)
    ensures
        text@ == utf8_lossy(bytes@),
        valid_utf8(bytes@) ==> text@ == decode_utf8(bytes@),
{
    String::from_utf8_lossy(bytes).into_owned()
}

/// Calls `serde_json::from_str` for a `serde_json::Value` and hands out the
/// members of a top-level object, each value by its variant; a number as the
/// text that `serde_json::Number` displays.
///
/// Trusted: the document depends on the text alone. Nothing is claimed of
/// which texts are JSON or of what their members are.
#[verifier::external_body]
fn parse_document(text: &str) -> (doc: Document)
    ensures
        doc.deep_view() == json_document(text@),
{
    match serde_json::from_str::<Value>(text) {
        Err(_) => Document::Invalid,
        Ok(Value::Object(map)) => Document::Object(map.into_iter().map(|(name, value)| Member {
            name,
            value: match value {
                Value::Number(n) => JsonValue::Number(n.to_string()),
                Value::Bool(b) => JsonValue::Bool(b),
                Value::String(s) => JsonValue::Text(s),
                Value::Null | Value::Array(_) | Value::Object(_) => JsonValue::Other,
            },
        }).collect()),
        Ok(_) => Document::NotObject,
    }
}

/// Reads a payload: decodes it as UTF-8, replacing what is invalid, and
/// parses the text as JSON.
pub fn read_document(payload: &[u8]) -> (doc: Document)
    ensures
        doc.deep_view() == json_document(utf8_lossy(payload@)),
        valid_utf8(payload@) ==> doc.deep_view() == json_document(decode_utf8(payload@)),
{
    let text = decode_lossy(payload);
    parse_document(text.as_str())
}

} // verus!
