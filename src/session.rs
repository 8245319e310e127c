//! The decisions of the save commands, apart from the file picker and the
//! file system that the host drives: whether to write, where, and what.
use crate::codec::{encode_compressed, encode_plain, encodes_to};
use crate::error::CodecError;
use crate::json::{pretty_json, reads_back, Document};
use vstd::prelude::*;
use vstd::slice::slice_to_vec;
use vstd::utf8::encode_utf8;

verus! {

/// The format a document is saved in.
#[derive(Clone, Copy, Debug, PartialEq, Eq, Structural)]
pub enum SaveFormat {
    /// A compressed save envelope (`.hhsav`).
    Envelope,
    /// Indented plain JSON (`.json`).
    PlainJson,
}

/// A write for the host to perform: all of `contents` to the file at `path`.
pub struct SaveAction<P> {
    pub path: P,
    pub contents: Vec<u8>,
}

/// The bytes that saving `doc` in `format` writes, or the error that stops
/// the save.
pub open spec fn save_contents(
    doc: Document,
    format: SaveFormat,
    r: Result<Vec<u8>, CodecError>,
) -> bool {
    match format {
        SaveFormat::Envelope => encodes_to(doc, r),
        SaveFormat::PlainJson => match pretty_json(doc) {
            None => r matches Err(CodecError::Serialization(_)),
            Some(t) => reads_back(t, doc) && (r matches Ok(b) && b@ == encode_utf8(t)),
        },
    }
}

/// Decides what a save does once the file picker has answered: nothing where
/// no path was selected, else a write of the encoded document to that path,
/// unless encoding fails.
pub fn plan_save<P>(selection: Option<P>, doc: &Document, format: SaveFormat) -> (r: Result<
    SaveAction<P>,
    CodecError,
>)
    ensures
        selection is None ==> r == Err::<SaveAction<P>, CodecError>(CodecError::UserCancelled),
        selection matches Some(p) ==> match r {
            Ok(a) => a.path == p && save_contents(*doc, format, Ok(a.contents)),
            Err(e) => save_contents(*doc, format, Err(e)),
        },
{
    let path = match selection {
        Some(p) => p,
        None => return Err(CodecError::UserCancelled),
    };
    let contents = match format {
        SaveFormat::Envelope => encode_compressed(doc)?,
        SaveFormat::PlainJson => {
            let text = encode_plain(doc)?;
            slice_to_vec(text.as_str().as_bytes())
        },
    };
    Ok(SaveAction { path, contents })
}

} // verus!
