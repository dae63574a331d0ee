//! Adapter between a host web server's native request objects and a plain
//! string-and-status-code view of HTTP requests and responses.
//!
//! The host server owns every request: its header block, its memory pool, and
//! the chain of buffers that holds an already-received request body.  This
//! crate models those foreign structures as plain data, so that the two
//! operations the adapter performs — reading the body as validated text, and
//! writing a status/body pair back out as a single final buffer — can be
//! stated and proved exactly.

pub mod body;
pub mod chain;
pub mod encoding;
pub mod error;
pub mod host;
pub mod request;
pub mod response;

pub use error::ErrorKind;
