//! JSON text of a document, through serde_json. A document is a
//! `serde_json::Value`: a tree of objects, arrays, strings, numbers,
//! booleans and null, which this library carries without looking inside.
use crate::error::CodecError;
use vstd::prelude::*;

verus! {

#[verifier::external_type_specification]
#[verifier::external_body]
pub struct ExValue(serde_json::Value);

/// A document: any JSON value.
pub type Document = serde_json::Value;

/// The compact JSON text that `serde_json::to_string` writes for `doc`;
/// `None` where it reports an error.
pub uninterp spec fn compact_json(doc: serde_json::Value) -> Option<Seq<char>>;

/// The indented JSON text that `serde_json::to_string_pretty` writes for
/// `doc`; `None` where it reports an error.
pub uninterp spec fn pretty_json(doc: serde_json::Value) -> Option<Seq<char>>;

/// The value that `serde_json::from_str` reads from `text`; `None` where it
/// reports an error.
pub uninterp spec fn parse_json(text: Seq<char>) -> Option<serde_json::Value>;

/// Relies on `serde_json::to_string` to write `doc` as compact JSON. What it
/// writes, `from_str` reads back as `doc` (strings and integers exactly,
/// floats exactly with the `float_roundtrip` feature), unless the value is
/// nested deeper than the parser's recursion limit, where it fails.
#[verifier::external_body]
fn to_compact(doc: &serde_json::Value) -> (r: Result<String, String>)
    ensures
        r matches Ok(t) ==> compact_json(*doc) == Some(t@),
        r is Err ==> compact_json(*doc) is None,
        r matches Ok(t) ==> (parse_json(t@) == Some(*doc) || parse_json(t@) is None),
{
    serde_json::to_string(doc).map_err(|e| e.to_string())
}

/// Relies on `serde_json::to_string_pretty` to write `doc` as indented JSON,
/// which `from_str` reads back as `doc` under the same terms as the compact
/// form.
#[verifier::external_body]
fn to_pretty(doc: &serde_json::Value) -> (r: Result<String, String>)
    ensures
        r matches Ok(t) ==> pretty_json(*doc) == Some(t@),
        r is Err ==> pretty_json(*doc) is None,
        r matches Ok(t) ==> (parse_json(t@) == Some(*doc) || parse_json(t@) is None),
{
    serde_json::to_string_pretty(doc).map_err(|e| e.to_string())
}

/// Relies on `serde_json::from_str` to read `text` as one JSON value.
#[verifier::external_body]
fn from_text(text: &str) -> (r: Result<serde_json::Value, String>)
    ensures
        r matches Ok(v) ==> parse_json(text@) == Some(v),
        r is Err ==> parse_json(text@) is None,
{
    serde_json::from_str(text).map_err(|e| e.to_string())
}

/// `text`, read as JSON, gives `doc` or fails: it gives no other document.
pub open spec fn reads_back(text: Seq<char>, doc: Document) -> bool {
    parse_json(text) == Some(doc) || parse_json(text) is None
}

/// What parsing `text` gives: the document it holds, else a parse error.
pub open spec fn parses_to(text: Seq<char>, r: Result<Document, CodecError>) -> bool {
    match parse_json(text) {
        Some(v) => r == Ok::<Document, CodecError>(v),
        None => r matches Err(CodecError::Parse(_)),
    }
}

/// Writes `doc` as compact JSON text.
pub fn write_compact(doc: &Document) -> (r: Result<String, CodecError>)
    ensures
        compact_json(*doc) matches Some(t) ==> (r matches Ok(s) && s@ == t),
        compact_json(*doc) is None ==> r matches Err(CodecError::Serialization(_)),
        r matches Ok(s) ==> reads_back(s@, *doc),
{
    match to_compact(doc) {
        Ok(t) => Ok(t),
        Err(m) => Err(CodecError::Serialization(m)),
    }
}

/// Writes `doc` as indented JSON text.
pub fn write_pretty(doc: &Document) -> (r: Result<String, CodecError>)
    ensures
        pretty_json(*doc) matches Some(t) ==> (r matches Ok(s) && s@ == t),
        pretty_json(*doc) is None ==> r matches Err(CodecError::Serialization(_)),
        r matches Ok(s) ==> reads_back(s@, *doc),
{
    match to_pretty(doc) {
        Ok(t) => Ok(t),
        Err(m) => Err(CodecError::Serialization(m)),
    }
}

/// Reads a document from JSON text.
pub fn parse_document(text: &str) -> (r: Result<Document, CodecError>)
    ensures
        parses_to(text@, r),
{
    match from_text(text) {
        Ok(v) => Ok(v),
        Err(m) => Err(CodecError::Parse(m)),
    }
}

} // verus!
