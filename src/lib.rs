//! Save-file codec: a document is stored as gzip-compressed compact JSON
//! (`.hhsav`) or exported as indented plain JSON (`.json`).
pub mod codec;
pub mod envelope;
pub mod error;
pub mod json;
pub mod laws;
pub mod session;
