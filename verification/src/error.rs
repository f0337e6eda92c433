//! The library's error type.
use vstd::prelude::*;

verus! {

/// `std::io::Error`, carried through unchanged.
#[verifier::external_type_specification]
#[verifier::external_body]
pub struct ExIoError(std::io::Error);

/// `serde_json::Error`, carried through unchanged.
#[verifier::external_type_specification]
#[verifier::external_body]
pub struct ExJsonError(serde_json::Error);

/// `std::num::ParseIntError`, carried through unchanged.
#[verifier::external_type_specification]
#[verifier::external_body]
pub struct ExParseIntError(std::num::ParseIntError);

/// The failures that operations of this library report.
#[derive(Debug)]
pub enum RustMethError {
    /// An operating-system or file-system error.
    Io(std::io::Error),
    /// A JSON serialization or deserialization failure.
    Json(serde_json::Error),
    /// A string-to-integer conversion failure.
    ParseInt(std::num::ParseIntError),
    /// An LSP message arrived without a `Content-Length` header.
    NoContentLength,
    /// A message loop read `limit` messages without finding a match.
    RecvExhausted {
        /// The number of messages read before giving up.
        limit: usize,
    },
    /// Valid JSON that lacks the fields a completion response must have;
    /// carries the response's text.
    UnexpectedResponseShape(String),
    /// `rust-analyzer` could be found neither on `PATH` nor through `rustup`.
    RustAnalyzerNotFound,
    /// The child process's stdin was not captured.
    MissingStdin,
    /// The child process's stdout was not captured.
    MissingStdout,
    /// `rust-analyzer` reported that the probed type does not exist.
    TypeNotFound {
        /// The type that was queried.
        type_expr: String,
        /// The diagnostic message.
        message: String,
    },
    /// `rust-analyzer` produced no usable answer within the retry budget.
    Timeout {
        /// The type that was queried.
        type_expr: String,
        /// How long the queries took, in seconds.
        waited_secs: u64,
    },
    /// The type exists but is compiled out behind a Cargo feature.
    FeatureGated {
        /// The type that was queried.
        type_expr: String,
        /// The rendered diagnostic.
        message: String,
    },
}

} // verus!
