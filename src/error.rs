use vstd::prelude::*;

verus! {

/// The user-facing operation an error is reported for.
#[derive(Clone, Copy, Debug, PartialEq, Eq, Structural)]
pub enum Command {
    Load,
    Save,
}

/// Why a load, save or export did not complete.
///
/// Each variant but `UserCancelled` carries the message of the failure it
/// stands for; all of them are flattened to one string by `message`.
#[derive(Debug, PartialEq, Eq)]
pub enum CodecError {
    /// The file picker returned no path.
    UserCancelled,
    /// Reading or writing the file failed.
    Io(String),
    /// The bytes are not a complete, intact gzip stream of UTF-8 text.
    Decompression(String),
    /// The text is not a JSON document.
    Parse(String),
    /// The document could not be written as JSON.
    Serialization(String),
    /// The compressor failed.
    Compression(String),
}

impl CodecError {
    /// The flattened message shown to the user for this error.
    pub fn message(&self, command: Command) -> (r: String)
        ensures
            self is UserCancelled && command == Command::Load ==> r@ == "No file selected"@,
            self is UserCancelled && command == Command::Save ==> r@ == "Save cancelled"@,
            self matches CodecError::Io(m) ==> r@ == m@,
            self matches CodecError::Decompression(m) ==> r@ == m@,
            self matches CodecError::Parse(m) ==> r@ == m@,
            self matches CodecError::Serialization(m) ==> r@ == m@,
            self matches CodecError::Compression(m) ==> r@ == m@,
    {
        match self {
            CodecError::UserCancelled => match command {
                Command::Load => "No file selected".to_owned(),
                Command::Save => "Save cancelled".to_owned(),
            },
            CodecError::Io(m) => m.clone(),
            CodecError::Decompression(m) => m.clone(),
            CodecError::Parse(m) => m.clone(),
            CodecError::Serialization(m) => m.clone(),
            CodecError::Compression(m) => m.clone(),
        }
    }
}

} // verus!
