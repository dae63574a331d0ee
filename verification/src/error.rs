//! The error kinds that the body-read and response-write operations report.

use vstd::prelude::*;

verus! {

/// Everything that can go wrong while reading a request body or writing a
/// response.
///
/// The first two kinds arise on the read path, the last three on the write
/// path; each write-path kind names the host call whose failure it reports.
#[derive(Clone, Copy, Debug, PartialEq, Eq, Structural)]
pub enum ErrorKind {
    /// The request-body structure, the buffer-chain head, or the head node's
    /// buffer was missing: body reading has not completed, or the request has
    /// no body.
    BodyNotInitialized,
    /// The body bytes are not valid UTF-8 text.
    InvalidEncoding,
    /// The host's send-headers call reported a non-success code.
    HeaderSendFailed,
    /// A pool allocation came back empty.
    AllocationFailed,
    /// The host's output-filter call reported a non-success code.
    OutputFilterFailed,
}

impl ErrorKind {
    /// A human-readable description of the error, for the caller to log.
    pub fn message(&self) -> (r: &'static str)
        ensures
            r@ == self.spec_message(),
    {
        proof {
            reveal_strlit("Request body buffers were not initialized as expected");
            reveal_strlit("Body contains invalid UTF-8");
            reveal_strlit("failed to send headers");
            reveal_strlit("Failed to allocate buffer");
            reveal_strlit("Failed to perform http output filter chain");
        }
        match self {
            ErrorKind::BodyNotInitialized => "Request body buffers were not initialized as expected",
            ErrorKind::InvalidEncoding => "Body contains invalid UTF-8",
            ErrorKind::HeaderSendFailed => "failed to send headers",
            ErrorKind::AllocationFailed => "Failed to allocate buffer",
            ErrorKind::OutputFilterFailed => "Failed to perform http output filter chain",
        }
    }

    /// The characters of the description that [`Self::message`] returns.
    pub open spec fn spec_message(self) -> Seq<char> {
        match self {
            ErrorKind::BodyNotInitialized => "Request body buffers were not initialized as expected"@,
            ErrorKind::InvalidEncoding => "Body contains invalid UTF-8"@,
            ErrorKind::HeaderSendFailed => "failed to send headers"@,
            ErrorKind::AllocationFailed => "Failed to allocate buffer"@,
            ErrorKind::OutputFilterFailed => "Failed to perform http output filter chain"@,
        }
    }
}

} // verus!
