//! Error categories surfaced to callers.

use vstd::prelude::*;

verus! {

/// Error raised while classifying inputs, decoding containers or parsing
/// artifact buffers. Soft per-record parse failures are counted, not raised.
#[derive(Debug)]
pub enum Error {
    /// Filesystem or device failure reported by the caller's I/O layer.
    Io(String),
    /// ZIP archive failure.
    Zip(String),
    /// JSON serialisation failure.
    Json(String),
    /// CSV writing failure.
    Csv(String),
    /// Generic error with a message.
    Generic(String),
    /// MFT record decoding failure.
    MftParsing(String),
    /// Artifact structure decoding failure.
    ParseError(String),
    /// Unparseable input handed to the library.
    InvalidInput(String),
    /// Missing privilege or permission.
    AccessDenied(String),
    /// Input formats the library does not decode, such as EWF images.
    Unsupported(String),
}

impl Error {
    /// The category name of this error.
    pub fn category(&self) -> (r: &'static str)
        ensures
            r@ == self.category_spec(),
    {
        match self {
            Error::Io(_) => "Io",
            Error::Zip(_) => "Zip",
            Error::Json(_) => "Json",
            Error::Csv(_) => "Csv",
            Error::Generic(_) => "Generic",
            Error::MftParsing(_) => "MftParsing",
            Error::ParseError(_) => "ParseError",
            Error::InvalidInput(_) => "InvalidInput",
            Error::AccessDenied(_) => "AccessDenied",
            Error::Unsupported(_) => "Unsupported",
        }
    }

    /// The category name, as a spec-level sequence of characters.
    pub open spec fn category_spec(&self) -> Seq<char> {
        match self {
            Error::Io(_) => "Io"@,
            Error::Zip(_) => "Zip"@,
            Error::Json(_) => "Json"@,
            Error::Csv(_) => "Csv"@,
            Error::Generic(_) => "Generic"@,
            Error::MftParsing(_) => "MftParsing"@,
            Error::ParseError(_) => "ParseError"@,
            Error::InvalidInput(_) => "InvalidInput"@,
            Error::AccessDenied(_) => "AccessDenied"@,
            Error::Unsupported(_) => "Unsupported"@,
        }
    }

    /// The message carried by this error.
    pub fn message(&self) -> (r: &String)
        ensures
            r@ == self.message_spec(),
    {
        match self {
            Error::Io(m) => m,
            Error::Zip(m) => m,
            Error::Json(m) => m,
            Error::Csv(m) => m,
            Error::Generic(m) => m,
            Error::MftParsing(m) => m,
            Error::ParseError(m) => m,
            Error::InvalidInput(m) => m,
            Error::AccessDenied(m) => m,
            Error::Unsupported(m) => m,
        }
    }

    /// The carried message, as a spec-level sequence of characters.
    pub open spec fn message_spec(&self) -> Seq<char> {
        match self {
            Error::Io(m) => m@,
            Error::Zip(m) => m@,
            Error::Json(m) => m@,
            Error::Csv(m) => m@,
            Error::Generic(m) => m@,
            Error::MftParsing(m) => m@,
            Error::ParseError(m) => m@,
            Error::InvalidInput(m) => m@,
            Error::AccessDenied(m) => m@,
            Error::Unsupported(m) => m@,
        }
    }
}

/// Convenient result alias used throughout the library.
pub type Result<T> = core::result::Result<T, Error>;

} // verus!
