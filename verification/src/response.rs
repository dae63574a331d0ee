//! The response writer: a one-shot procedure that serializes a status code
//! and a body text into the request's output headers and a single, final,
//! in-memory output buffer, and hands that buffer to the host's output
//! filter.

use vstd::prelude::*;
use vstd::string::StringSliceAdditionalSpecFns;

use crate::chain::{is_single_final_chain, BufferFlags, ChainNode};
use crate::error::ErrorKind;
use crate::host::Host;
use crate::request::Request;

verus! {

/// Write `body` with status `status` as the response to `request`.
///
/// The output status and the declared content length — the body's exact
/// byte length, not its character count — are always set on the request's
/// header block.  Then, in order: the host's send-headers call; two pool
/// allocations, one for the output buffer descriptor and one for the body
/// copy; and the host's output-filter call, handed a one-node chain whose
/// buffer holds the body bytes with all three delivery flags set.  Any host
/// failure aborts the sequence at once with the matching error kind:
/// a failed send-headers call is reported before any allocation is
/// attempted, an empty allocation is reported without invoking the output
/// filter, and nothing allocated is freed — the pool is reclaimed in bulk
/// by the host.
pub fn write_response(request: &mut Request, host: &mut Host, status: u16, body: &str) -> (r:
    Result<(), ErrorKind>)
    requires
        old(request).pool.calls + 2 <= u64::MAX,
        old(host).header_calls < u64::MAX,
        old(host).filter_calls < u64::MAX,
    ensures
        final(request).headers_out.status == status,
        final(request).headers_out.content_length matches Some(n) && n == body.spec_bytes().len(),
        final(request).request_body == old(request).request_body,
        final(host).header_send_ok == old(host).header_send_ok,
        final(host).output_filter_ok == old(host).output_filter_ok,
        final(host).header_calls == old(host).header_calls + 1,
        !old(host).header_send_ok ==> {
            &&& r == Err::<(), ErrorKind>(ErrorKind::HeaderSendFailed)
            &&& final(request).pool.calls == old(request).pool.calls
            &&& final(request).pool.grants == old(request).pool.grants
            &&& final(host).filter_calls == old(host).filter_calls
            &&& final(host).sent_chain == old(host).sent_chain
            &&& final(host).sent_headers == old(host).sent_headers
        },
        old(host).header_send_ok ==> final(host).sent_headers == Some(
            final(request).headers_out,
        ),
        old(host).header_send_ok && old(request).pool.grants < 2 ==> {
            &&& r == Err::<(), ErrorKind>(ErrorKind::AllocationFailed)
            &&& final(request).pool.calls == old(request).pool.calls + (
            if old(request).pool.grants == 0 {
                1int
            } else {
                2int
            })
            &&& final(request).pool.grants == 0
            &&& final(host).filter_calls == old(host).filter_calls
            &&& final(host).sent_chain == old(host).sent_chain
        },
        old(host).header_send_ok && old(request).pool.grants >= 2 ==> {
            &&& final(request).pool.calls == old(request).pool.calls + 2
            &&& final(request).pool.grants == old(request).pool.grants - 2
            &&& final(host).filter_calls == old(host).filter_calls + 1
            &&& final(host).sent_chain matches Some(c) && is_single_final_chain(
                c,
                body.spec_bytes(),
            )
            &&& r == if old(host).output_filter_ok {
                Ok::<(), ErrorKind>(())
            } else {
                Err::<(), ErrorKind>(ErrorKind::OutputFilterFailed)
            }
        },
{
    let body_bytes: &[u8] = body.as_bytes();
    let len: usize = body_bytes.len();

    request.headers_out.status = status;
    request.headers_out.content_length = Some(len);

    if !host.send_header(&request.headers_out) {
        return Err(ErrorKind::HeaderSendFailed);
    }

    let mut buf = match request.pool.alloc_buffer() {
        Some(b) => b,
        None => {
            return Err(ErrorKind::AllocationFailed);
        },
    };

    buf.flags = BufferFlags { last_buf: true, last_in_chain: true, memory: true };

    let mut region = match request.pool.alloc_bytes(len) {
        Some(v) => v,
        None => {
            return Err(ErrorKind::AllocationFailed);
        },
    };

    let mut i: usize = 0;
    while i < len
        invariant
            i <= len,
            len == body_bytes@.len(),
            region@.len() == len,
            forall|j: int| 0 <= j < i ==> region@[j] == body_bytes@[j],
        decreases len - i,
    {
        region[i] = body_bytes[i];
        i = i + 1;
    }
    proof {
        assert(region@ =~= body_bytes@);
    }

    buf.bytes = region;

    let out_chain = ChainNode { buf: Some(buf), next: None };

    if !host.output_filter(out_chain) {
        return Err(ErrorKind::OutputFilterFailed);
    }

    Ok(())
}

} // verus!
