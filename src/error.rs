//! Error types of the client.
use vstd::prelude::*;
use crate::response::ResponseCode;

verus! {

/// A `Result` whose error is the client's `Error`.
pub type Result<T> = std::result::Result<T, Error>;

/// The kind of an input/output failure.
#[derive(Debug, Clone, Copy, PartialEq, Eq, Structural)]
pub enum IoErrorKind {
    /// The stream ended while bytes of an unfinished response were buffered.
    UnexpectedEof,
    /// A response would need a buffer larger than the ceiling.
    TooLarge,
    /// The server turned a request down at the connection level.
    ConnectionRefused,
    /// The server's bytes could not be parsed; the stream is unusable.
    Malformed,
    /// Any other failure of the underlying stream.
    Other,
}

/// An invalid character was found in an input string.
#[derive(Debug, Clone, Copy, PartialEq, Eq, Structural)]
pub struct ValidateError(pub char);

/// An error while interpreting a server response.
#[derive(Debug)]
pub enum ParseError {
    /// The bytes of a status response could not be parsed.
    Invalid(Vec<u8>),
    /// An unexpected response was encountered.
    Unexpected(String),
    /// The server's authentication challenge could not be decoded.
    Authentication(String),
    /// The client received data that was not UTF-8 encoded.
    DataNotUtf8(Vec<u8>),
    /// The expected response for a command was not found.
    ExpectedResponseNotFound(String),
}

/// The errors of the IMAP client.
#[derive(Debug)]
pub enum Error {
    /// A failure of the byte stream, or an unexpected end of it.
    Io(IoErrorKind),
    /// A BAD response: the server rejected the command.
    Bad(Option<ResponseCode>, Option<String>),
    /// A NO response: the server refused the operation.
    No(Option<ResponseCode>, Option<String>),
    /// The stream ended before the command was completed.
    ConnectionLost,
    /// A server response could not be interpreted.
    Parse(ParseError),
    /// A command argument held a forbidden character.
    Validate(ValidateError),
    /// APPEND was not invited to send its literal.
    Append,
}

} // verus!
