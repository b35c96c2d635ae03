//! The closed set of error kinds that a conversion can produce, together
//! with the human-readable text each kind renders to.

use vstd::prelude::*;
use crate::text::concat2;

verus! {

/// Everything that can go wrong while resolving formats, selecting a
/// strategy, preparing the output location, or running the external tool.
#[derive(Debug)]
pub enum ConverterError {
    /// The input file was absent when the strategy checked for it.
    FileNotFound { path: String },
    /// A format token, or a pair of formats, that the crate does not support.
    UnsupportedFormat { format: String },
    /// The external tool ran but did not produce a usable result.
    ConversionFailed { message: String },
    /// A filesystem operation failed.
    IoError { message: String },
    /// The external tool could not be started at all.
    MarkitdownError { message: String },
    /// A path with no extension, when no format hint was given either.
    InvalidPath { path: String },
}

/// The mathematical shape of a [`ConverterError`]: the same six kinds,
/// carrying the views of their strings.
pub enum ErrorModel {
    FileNotFound(Seq<char>),
    UnsupportedFormat(Seq<char>),
    ConversionFailed(Seq<char>),
    IoError(Seq<char>),
    MarkitdownError(Seq<char>),
    InvalidPath(Seq<char>),
}

impl View for ConverterError {
    type V = ErrorModel;

    open spec fn view(&self) -> ErrorModel {
        match self {
            ConverterError::FileNotFound { path } => ErrorModel::FileNotFound(path@),
            ConverterError::UnsupportedFormat { format } => ErrorModel::UnsupportedFormat(format@),
            ConverterError::ConversionFailed { message } => ErrorModel::ConversionFailed(message@),
            ConverterError::IoError { message } => ErrorModel::IoError(message@),
            ConverterError::MarkitdownError { message } => ErrorModel::MarkitdownError(message@),
            ConverterError::InvalidPath { path } => ErrorModel::InvalidPath(path@),
        }
    }
}

/// The text that an error renders to when shown to a user.
pub open spec fn error_text(e: ErrorModel) -> Seq<char> {
    match e {
        ErrorModel::FileNotFound(path) => "File not found: "@ + path,
        ErrorModel::UnsupportedFormat(format) => "Unsupported file format: "@ + format,
        ErrorModel::ConversionFailed(message) => "Conversion failed: "@ + message,
        ErrorModel::IoError(message) => "IO error: "@ + message,
        ErrorModel::MarkitdownError(message) => "Markitdown command failed: "@ + message,
        ErrorModel::InvalidPath(path) => "Invalid file path: "@ + path,
    }
}

impl ConverterError {
    /// Renders the error as the text a caller shows to a user.
    pub fn message(&self) -> (r: String)
        ensures
            r@ == error_text(self@),
    {
        match self {
            ConverterError::FileNotFound { path } => concat2("File not found: ", path.as_str()),
            ConverterError::UnsupportedFormat { format } => {
                concat2("Unsupported file format: ", format.as_str())
            },
            ConverterError::ConversionFailed { message } => {
                concat2("Conversion failed: ", message.as_str())
            },
            ConverterError::IoError { message } => concat2("IO error: ", message.as_str()),
            ConverterError::MarkitdownError { message } => {
                concat2("Markitdown command failed: ", message.as_str())
            },
            ConverterError::InvalidPath { path } => concat2("Invalid file path: ", path.as_str()),
        }
    }
}

} // verus!
