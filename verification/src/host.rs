//! Models of the host server's collaborators: the per-request memory pool
//! and the host's header/output pipeline.
//!
//! The real pool and pipeline live in the host process; this crate only ever
//! observes their outcomes (an allocation that came back null, a call that
//! reported a non-success code).  The models therefore carry each outcome as
//! plain state — how many allocations will still succeed, whether the next
//! send-headers or output-filter call succeeds — together with a record of
//! every call made, so that contracts can say not only what an operation
//! returned but which host calls it did and did not perform.

use vstd::prelude::*;

use crate::chain::{Buffer, BufferFlags, ChainNode};
use crate::request::HeadersOut;

verus! {

/// The model of one request's memory pool.
///
/// The pool either grants an allocation or returns null; `grants` is the
/// number of allocations that will still succeed, and `calls` counts every
/// attempt, so a contract can state that a code path attempted no
/// allocation at all.
#[derive(Clone, Copy, Debug)]
pub struct Pool {
    /// How many further allocations the pool will grant before it reports
    /// exhaustion.
    pub grants: u64,
    /// How many allocations have been attempted on this pool.
    pub calls: u64,
}

impl Pool {
    /// A fresh pool that will grant the next `grants` allocations.
    pub fn new(grants: u64) -> (r: Pool)
        ensures
            r.grants == grants,
            r.calls == 0,
    {
        Pool { grants, calls: 0 }
    }

    /// Allocate a buffer descriptor from the pool.
    ///
    /// The host zero-fills what it allocates, so a granted descriptor comes
    /// back with an empty byte range and every flag cleared.  A `None`
    /// models the null return of an exhausted pool.
    pub fn alloc_buffer(&mut self) -> (r: Option<Buffer>)
        requires
            old(self).calls < u64::MAX,
        ensures
            final(self).calls == old(self).calls + 1,
            old(self).grants > 0 ==> {
                &&& r matches Some(b) && b.bytes@ == Seq::<u8>::empty() && b.flags.all_clear()
                &&& final(self).grants == old(self).grants - 1
            },
            old(self).grants == 0 ==> r is None && final(self).grants == 0,
    {
        self.calls = self.calls + 1;
        if self.grants > 0 {
            self.grants = self.grants - 1;
            Some(
                Buffer {
                    bytes: Vec::new(),
                    flags: BufferFlags { last_buf: false, last_in_chain: false, memory: false },
                },
            )
        } else {
            None
        }
    }

    /// Allocate a byte region of exactly `n` bytes from the pool.
    ///
    /// A granted region comes back zero-filled, as the host's zeroing
    /// allocator leaves it; a `None` models the null return of an exhausted
    /// pool.
    pub fn alloc_bytes(&mut self, n: usize) -> (r: Option<Vec<u8>>)
        requires
            old(self).calls < u64::MAX,
        ensures
            final(self).calls == old(self).calls + 1,
            old(self).grants > 0 ==> {
                &&& r matches Some(v) && v@ == Seq::new(n as nat, |i: int| 0u8)
                &&& final(self).grants == old(self).grants - 1
            },
            old(self).grants == 0 ==> r is None && final(self).grants == 0,
    {
        self.calls = self.calls + 1;
        if self.grants > 0 {
            self.grants = self.grants - 1;
            let mut region: Vec<u8> = Vec::new();
            let mut i: usize = 0;
            while i < n
                invariant
                    i <= n,
                    region@ == Seq::new(i as nat, |j: int| 0u8),
                decreases n - i,
            {
                region.push(0u8);
                proof {
                    assert(region@ =~= Seq::new((i + 1) as nat, |j: int| 0u8));
                }
                i = i + 1;
            }
            Some(region)
        } else {
            None
        }
    }
}

/// The model of the host's response pipeline: the send-headers call and the
/// output-filter call.
///
/// Each call's outcome is scripted by a boolean, and the model records every
/// call and everything handed over, so that contracts can pin down which
/// host calls an operation made and with what.
#[derive(Debug)]
pub struct Host {
    /// Whether the next send-headers call reports success.
    pub header_send_ok: bool,
    /// Whether the next output-filter call reports success.
    pub output_filter_ok: bool,
    /// How many send-headers calls were made.
    pub header_calls: u64,
    /// How many output-filter calls were made.
    pub filter_calls: u64,
    /// The header block as it stood when send-headers last succeeded.
    pub sent_headers: Option<HeadersOut>,
    /// The chain last handed to the output filter; the host owns it from
    /// then on.
    pub sent_chain: Option<ChainNode>,
}

impl Host {
    /// A fresh host pipeline with the two call outcomes scripted and no
    /// calls recorded.
    pub fn new(header_send_ok: bool, output_filter_ok: bool) -> (r: Host)
        ensures
            r.header_send_ok == header_send_ok,
            r.output_filter_ok == output_filter_ok,
            r.header_calls == 0,
            r.filter_calls == 0,
            r.sent_headers is None,
            r.sent_chain is None,
    {
        Host {
            header_send_ok,
            output_filter_ok,
            header_calls: 0,
            filter_calls: 0,
            sent_headers: None,
            sent_chain: None,
        }
    }

    /// Send the response headers.  Returns true on success, in which case
    /// the header block as handed over is recorded.
    pub fn send_header(&mut self, headers: &HeadersOut) -> (ok: bool)
        requires
            old(self).header_calls < u64::MAX,
        ensures
            ok == old(self).header_send_ok,
            final(self).header_calls == old(self).header_calls + 1,
            ok ==> final(self).sent_headers == Some(*headers),
            !ok ==> final(self).sent_headers == old(self).sent_headers,
            final(self).header_send_ok == old(self).header_send_ok,
            final(self).output_filter_ok == old(self).output_filter_ok,
            final(self).filter_calls == old(self).filter_calls,
            final(self).sent_chain == old(self).sent_chain,
    {
        self.header_calls = self.header_calls + 1;
        if self.header_send_ok {
            self.sent_headers = Some(*headers);
        }
        self.header_send_ok
    }

    /// Hand an output chain to the host's output filter.  The host takes
    /// ownership of the chain whether or not it reports success.
    pub fn output_filter(&mut self, chain: ChainNode) -> (ok: bool)
        requires
            old(self).filter_calls < u64::MAX,
        ensures
            ok == old(self).output_filter_ok,
            final(self).filter_calls == old(self).filter_calls + 1,
            final(self).sent_chain == Some(chain),
            final(self).header_send_ok == old(self).header_send_ok,
            final(self).output_filter_ok == old(self).output_filter_ok,
            final(self).header_calls == old(self).header_calls,
            final(self).sent_headers == old(self).sent_headers,
    {
        self.filter_calls = self.filter_calls + 1;
        self.sent_chain = Some(chain);
        self.output_filter_ok
    }
}

} // verus!
