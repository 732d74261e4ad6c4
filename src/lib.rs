//! An IMAP4rev1 client protocol engine: framing of the server byte stream,
//! command tags, argument quoting, command text, correlation of tagged
//! completions and routing of untagged data, with the IDLE and AUTHENTICATE
//! sub-protocols expressed as verified state steps.
pub mod auth;
pub mod buffer;
pub mod capabilities;
pub mod collect;
pub mod commands;
pub mod error;
pub mod extensions;
pub mod idle;
pub mod quota;
pub mod response;
pub mod router;
pub mod session;
pub mod stream;
pub mod tag;
pub mod text;
pub mod types;
pub mod validate;
