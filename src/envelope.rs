//! The compressed envelope: one gzip stream, written at the default
//! compression level, of the UTF-8 bytes of a text.
use crate::error::CodecError;
use std::io::Read;
use std::io::Write;
use vstd::prelude::*;

verus! {

/// The gzip stream that flate2's `GzEncoder` writes, at the default level,
/// for the UTF-8 bytes of `text`; `None` where the encoder reports an error.
pub uninterp spec fn gzip_utf8(text: Seq<char>) -> Option<Seq<u8>>;

/// The text that flate2's `GzDecoder` reads to the end of `bytes`, as UTF-8;
/// `None` where the stream is malformed, truncated, fails its CRC or length
/// check, or does not hold UTF-8.
pub uninterp spec fn gunzip_utf8(bytes: Seq<u8>) -> Option<Seq<char>>;

/// Relies on flate2's `GzEncoder` (`new` with `Compression::default()`,
/// `write_all`, `finish`) to compress `text` into an in-memory gzip stream.
/// The header it writes is fixed (mtime 0, OS byte 255) and the default
/// backend is the pure-Rust miniz_oxide, so the stream depends on `text` alone. The format is lossless, so `GzDecoder` reads back `text`
/// from it; the stream ends in an 8-byte trailer (CRC-32 and length), and
/// `GzDecoder` fails with `UnexpectedEof` on a trailer cut short, which is
/// what dropping the last byte gives.
#[verifier::external_body]
fn gzip_compress(text: &str) -> (r: Result<Vec<u8>, String>)
    ensures
        r matches Ok(z) ==> gzip_utf8(text@) == Some(z@),
        r is Err ==> gzip_utf8(text@) is None,
        r matches Ok(z) ==> gunzip_utf8(z@) == Some(text@),
        r matches Ok(z) ==> gunzip_utf8(z@.drop_last()) is None,
{
    let mut encoder = flate2::write::GzEncoder::new(Vec::new(), flate2::Compression::default());
    encoder.write_all(text.as_bytes()).map_err(|e| e.to_string())?;
    encoder.finish().map_err(|e| e.to_string())
}

/// Relies on flate2's `read::GzDecoder` (`new`, `read_to_string`) to
/// decompress all of `bytes` in memory and read the result as UTF-8 text.
#[verifier::external_body]
fn gzip_decompress(bytes: &[u8]) -> (r: Result<String, String>)
    ensures
        r matches Ok(t) ==> gunzip_utf8(bytes@) == Some(t@),
        r is Err ==> gunzip_utf8(bytes@) is None,
{
    let mut decoder = flate2::read::GzDecoder::new(bytes);
    let mut text = String::new();
    decoder.read_to_string(&mut text).map_err(|e| e.to_string())?;
    Ok(text)
}

/// Wraps `text` in an envelope.
pub fn seal(text: &str) -> (r: Result<Vec<u8>, CodecError>)
    ensures
        gzip_utf8(text@) matches Some(z) ==> (r matches Ok(out) && out@ == z),
        gzip_utf8(text@) is None ==> r matches Err(CodecError::Compression(_)),
        r matches Ok(out) ==> gunzip_utf8(out@) == Some(text@),
        r matches Ok(out) ==> gunzip_utf8(out@.drop_last()) is None,
{
    match gzip_compress(text) {
        Ok(z) => Ok(z),
        Err(m) => Err(CodecError::Compression(m)),
    }
}

/// Takes the text out of an envelope.
pub fn open(bytes: &[u8]) -> (r: Result<String, CodecError>)
    ensures
        gunzip_utf8(bytes@) matches Some(t) ==> (r matches Ok(s) && s@ == t),
        gunzip_utf8(bytes@) is None ==> r matches Err(CodecError::Decompression(_)),
{
    match gzip_decompress(bytes) {
        Ok(t) => Ok(t),
        Err(m) => Err(CodecError::Decompression(m)),
    }
}

} // verus!
