//! The model of the host server's per-request structure.
//!
//! The host hands this crate one request at a time: an output-header block,
//! a memory pool, and — once body reading has completed — a request-body
//! structure holding a chain of buffer nodes.  Each possibly-null pointer of
//! the host's structure is modelled as an `Option`.

use vstd::prelude::*;

use crate::chain::ChainNode;
use crate::host::Pool;

verus! {

/// The request's output-header block: the two fields the response writer
/// sets before the headers are sent.
#[derive(Clone, Copy, Debug)]
pub struct HeadersOut {
    /// The numeric HTTP status of the response.
    pub status: u16,
    /// The declared length of the response body in bytes, once set.
    pub content_length: Option<usize>,
}

/// The request-body structure the host fills in when body reading
/// completes: the head of a chain of buffer nodes, if any was received.
#[derive(Debug)]
pub struct RequestBodyState {
    /// The head node of the body's buffer chain.
    pub bufs: Option<ChainNode>,
}

/// The model of one in-flight request, borrowed from the host for the
/// duration of a single operation.
#[derive(Debug)]
pub struct Request {
    /// The output-header block.
    pub headers_out: HeadersOut,
    /// The request-body structure, present once body reading completed.
    pub request_body: Option<RequestBodyState>,
    /// The request's memory pool.
    pub pool: Pool,
}

/// The bytes of the request's first body buffer, or `None` when the
/// request-body structure, the chain head, or the head node's buffer is
/// missing.  Only the first buffer is consulted: bodies spanning several
/// buffers are out of this crate's scope.
pub open spec fn body_bytes(r: Request) -> Option<Seq<u8>> {
    match r.request_body {
        Some(rb) => match rb.bufs {
            Some(node) => match node.buf {
                Some(b) => Some(b.bytes@),
                None => None,
            },
            None => None,
        },
        None => None,
    }
}

} // verus!
