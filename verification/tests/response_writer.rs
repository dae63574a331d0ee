use ngx_adapter::chain::ChainNode;
use ngx_adapter::error::ErrorKind;
use ngx_adapter::host::{Host, Pool};
use ngx_adapter::request::{HeadersOut, Request};
use ngx_adapter::response::write_response;

fn fresh_request(grants: u64) -> Request {
    Request {
        headers_out: HeadersOut { status: 0, content_length: None },
        request_body: None,
        pool: Pool::new(grants),
    }
}

fn assert_single_final_chain(chain: &ChainNode, bytes: &[u8]) {
    assert!(chain.next.is_none());
    let buf = chain.buf.as_ref().expect("chain node should carry a buffer");
    assert_eq!(buf.bytes, bytes);
    assert!(buf.flags.last_buf);
    assert!(buf.flags.last_in_chain);
    assert!(buf.flags.memory);
}

#[test]
fn writes_status_and_body() {
    let mut req = fresh_request(8);
    let mut host = Host::new(true, true);
    let r = write_response(&mut req, &mut host, 200, "ok");
    assert_eq!(r, Ok(()));
    assert_eq!(req.headers_out.status, 200);
    assert_eq!(req.headers_out.content_length, Some(2));
    let sent = host.sent_headers.expect("headers should have been sent");
    assert_eq!(sent.status, 200);
    assert_eq!(sent.content_length, Some(2));
    assert_eq!(host.header_calls, 1);
    assert_eq!(host.filter_calls, 1);
    assert_eq!(req.pool.calls, 2);
    let chain = host.sent_chain.as_ref().expect("a chain should have been submitted");
    assert_single_final_chain(chain, b"ok");
}

#[test]
fn writes_empty_body() {
    let mut req = fresh_request(8);
    let mut host = Host::new(true, true);
    let r = write_response(&mut req, &mut host, 404, "");
    assert_eq!(r, Ok(()));
    assert_eq!(req.headers_out.status, 404);
    assert_eq!(req.headers_out.content_length, Some(0));
    let chain = host.sent_chain.as_ref().expect("a chain should have been submitted");
    assert_single_final_chain(chain, b"");
    assert_eq!(host.filter_calls, 1);
}

#[test]
fn content_length_counts_bytes_not_characters() {
    let mut req = fresh_request(8);
    let mut host = Host::new(true, true);
    let r = write_response(&mut req, &mut host, 200, "café");
    assert_eq!(r, Ok(()));
    assert_eq!(req.headers_out.content_length, Some(5));
    let chain = host.sent_chain.as_ref().expect("a chain should have been submitted");
    assert_single_final_chain(chain, "café".as_bytes());
}

#[test]
fn header_send_failure_allocates_nothing() {
    let mut req = fresh_request(8);
    let mut host = Host::new(false, true);
    let r = write_response(&mut req, &mut host, 200, "ok");
    assert_eq!(r, Err(ErrorKind::HeaderSendFailed));
    assert_eq!(req.pool.calls, 0);
    assert_eq!(req.pool.grants, 8);
    assert_eq!(host.filter_calls, 0);
    assert!(host.sent_chain.is_none());
    assert!(host.sent_headers.is_none());
    // The header fields were still set before the send was attempted.
    assert_eq!(req.headers_out.status, 200);
    assert_eq!(req.headers_out.content_length, Some(2));
}

#[test]
fn descriptor_allocation_failure_skips_output_filter() {
    let mut req = fresh_request(0);
    let mut host = Host::new(true, true);
    let r = write_response(&mut req, &mut host, 200, "ok");
    assert_eq!(r, Err(ErrorKind::AllocationFailed));
    assert_eq!(req.pool.calls, 1);
    assert_eq!(host.filter_calls, 0);
    assert!(host.sent_chain.is_none());
}

#[test]
fn body_allocation_failure_skips_output_filter() {
    let mut req = fresh_request(1);
    let mut host = Host::new(true, true);
    let r = write_response(&mut req, &mut host, 200, "ok");
    assert_eq!(r, Err(ErrorKind::AllocationFailed));
    assert_eq!(req.pool.calls, 2);
    assert_eq!(req.pool.grants, 0);
    assert_eq!(host.filter_calls, 0);
    assert!(host.sent_chain.is_none());
}

#[test]
fn output_filter_failure_is_reported() {
    let mut req = fresh_request(8);
    let mut host = Host::new(true, false);
    let r = write_response(&mut req, &mut host, 500, "oops");
    assert_eq!(r, Err(ErrorKind::OutputFilterFailed));
    assert_eq!(host.filter_calls, 1);
    // The host consumed the chain even though it reported failure.
    let chain = host.sent_chain.as_ref().expect("the chain was handed over");
    assert_single_final_chain(chain, b"oops");
}
