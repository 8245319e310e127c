//! Properties that relate the codec's operations to one another.
use crate::codec::{decodes_to, encodes_to, exports_to};
use crate::error::CodecError;
use crate::json::{parses_to, Document};
use vstd::prelude::*;

verus! {

/// Decoding the envelope that encoding `doc` produced gives `doc` back. The
/// one exception is a document nested beyond the JSON parser's depth limit,
/// which fails to parse: decoding never gives another document.
pub proof fn lemma_round_trip(
    doc: Document,
    encoded: Vec<u8>,
    decoded: Result<Document, CodecError>,
)
    requires
        encodes_to(doc, Ok(encoded)),
        decodes_to(encoded@, decoded),
    ensures
        decoded == Ok::<Document, CodecError>(doc) || decoded matches Err(CodecError::Parse(_)),
{
}

/// The exported text, parsed as JSON, gives the exported document back, with
/// the same exception for documents nested beyond the parser's depth limit.
pub proof fn lemma_export_reads_back(
    doc: Document,
    text: String,
    parsed: Result<Document, CodecError>,
)
    requires
        exports_to(doc, Ok(text)),
        parses_to(text@, parsed),
    ensures
        parsed == Ok::<Document, CodecError>(doc) || parsed matches Err(CodecError::Parse(_)),
{
}

/// An envelope that lost its last byte fails to decode with a decompression
/// error: it never yields a document.
pub proof fn lemma_truncation_detected(
    doc: Document,
    encoded: Vec<u8>,
    decoded: Result<Document, CodecError>,
)
    requires
        encodes_to(doc, Ok(encoded)),
        decodes_to(encoded@.drop_last(), decoded),
    ensures
        decoded matches Err(CodecError::Decompression(_)),
{
}

/// Exporting one document twice gives the same outcome: both fail, or both
/// give the same text.
pub proof fn lemma_export_deterministic(
    doc: Document,
    first: Result<String, CodecError>,
    second: Result<String, CodecError>,
)
    requires
        exports_to(doc, first),
        exports_to(doc, second),
    ensures
        first is Ok <==> second is Ok,
        first matches Ok(a) ==> (second matches Ok(b) && a@ == b@),
{
}

} // verus!
