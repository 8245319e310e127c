//! The save codec: a document to and from its compressed envelope, and to
//! its plain-text export.
use crate::envelope::{gunzip_utf8, gzip_utf8, open, seal};
use crate::error::CodecError;
use crate::json::{
    compact_json,
    parse_document,
    parses_to,
    pretty_json,
    reads_back,
    write_compact,
    write_pretty,
    Document,
};
use vstd::prelude::*;

verus! {

/// Envelope `z` holds exactly `text`, and without its last byte it no
/// longer decompresses.
pub open spec fn holds_text(z: Seq<u8>, text: Seq<char>) -> bool {
    &&& gunzip_utf8(z) == Some(text)
    &&& gunzip_utf8(z.drop_last()) is None
}

/// What encoding `doc` gives: the envelope of its compact JSON text, else the
/// error of the step that failed.
pub open spec fn encodes_to(doc: Document, r: Result<Vec<u8>, CodecError>) -> bool {
    match compact_json(doc) {
        None => r matches Err(CodecError::Serialization(_)),
        Some(t) => {
            &&& reads_back(t, doc)
            &&& match gzip_utf8(t) {
                Some(z) => r matches Ok(out) && out@ == z && holds_text(z, t),
                None => r matches Err(CodecError::Compression(_)),
            }
        },
    }
}

/// What decoding `bytes` gives: the document that the text in the envelope
/// holds; else a decompression error where the bytes are no intact envelope
/// of UTF-8 text, and a parse error where that text is no JSON document.
pub open spec fn decodes_to(bytes: Seq<u8>, r: Result<Document, CodecError>) -> bool {
    match gunzip_utf8(bytes) {
        None => r matches Err(CodecError::Decompression(_)),
        Some(t) => parses_to(t, r),
    }
}

/// What exporting `doc` gives: its indented JSON text, else a serialization
/// error.
pub open spec fn exports_to(doc: Document, r: Result<String, CodecError>) -> bool {
    match pretty_json(doc) {
        None => r matches Err(CodecError::Serialization(_)),
        Some(t) => reads_back(t, doc) && (r matches Ok(s) && s@ == t),
    }
}

/// Encodes `doc` as a save envelope: compact JSON, gzip-compressed.
pub fn encode_compressed(doc: &Document) -> (r: Result<Vec<u8>, CodecError>)
    ensures
        encodes_to(*doc, r),
{
    let text = write_compact(doc)?;
    seal(text.as_str())
}

/// Decodes a save envelope: decompresses all of `bytes`, then parses the
/// text as JSON.
pub fn decode_compressed(bytes: &[u8]) -> (r: Result<Document, CodecError>)
    ensures
        decodes_to(bytes@, r),
{
    let text = open(bytes)?;
    parse_document(text.as_str())
}

/// Encodes `doc` as indented JSON text for export.
pub fn encode_plain(doc: &Document) -> (r: Result<String, CodecError>)
    ensures
        exports_to(*doc, r),
{
    write_pretty(doc)
}

} // verus!
