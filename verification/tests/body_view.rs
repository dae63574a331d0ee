use ngx_adapter::body::RequestBody;
use ngx_adapter::chain::{Buffer, BufferFlags, ChainNode};
use ngx_adapter::error::ErrorKind;
use ngx_adapter::host::Pool;
use ngx_adapter::request::{HeadersOut, Request, RequestBodyState};

fn clear_flags() -> BufferFlags {
    BufferFlags { last_buf: false, last_in_chain: false, memory: false }
}

fn request_with_body(bytes: Vec<u8>) -> Request {
    Request {
        headers_out: HeadersOut { status: 0, content_length: None },
        request_body: Some(RequestBodyState {
            bufs: Some(ChainNode {
                buf: Some(Buffer { bytes, flags: clear_flags() }),
                next: None,
            }),
        }),
        pool: Pool::new(0),
    }
}

#[test]
fn reads_ascii_body() {
    let req = request_with_body(b"hello".to_vec());
    let view = RequestBody::new(&req);
    assert_eq!(view.as_str(), Ok("hello"));
}

#[test]
fn reads_multibyte_body_identically() {
    let req = request_with_body("café".as_bytes().to_vec());
    let view = RequestBody::new(&req);
    let text = view.as_str().unwrap();
    assert_eq!(text, "café");
    assert_eq!(text.len(), 5);
}

#[test]
fn reads_empty_body() {
    let req = request_with_body(Vec::new());
    let view = RequestBody::new(&req);
    assert_eq!(view.as_str(), Ok(""));
}

#[test]
fn reads_four_byte_scalar() {
    let req = request_with_body(vec![0xf0, 0x9f, 0x98, 0x80]);
    let view = RequestBody::new(&req);
    assert_eq!(view.as_str(), Ok("\u{1f600}"));
}

#[test]
fn rejects_invalid_bytes() {
    let req = request_with_body(vec![0xff, 0xfe]);
    let view = RequestBody::new(&req);
    assert_eq!(view.as_str(), Err(ErrorKind::InvalidEncoding));
}

#[test]
fn rejects_invalid_suffix_without_partial_data() {
    let req = request_with_body(vec![b'o', b'k', 0x80]);
    let view = RequestBody::new(&req);
    assert_eq!(view.as_str(), Err(ErrorKind::InvalidEncoding));
}

#[test]
fn rejects_truncated_sequence() {
    let req = request_with_body(vec![0xc3]);
    let view = RequestBody::new(&req);
    assert_eq!(view.as_str(), Err(ErrorKind::InvalidEncoding));
}

#[test]
fn rejects_overlong_encoding() {
    let req = request_with_body(vec![0xc0, 0x80]);
    let view = RequestBody::new(&req);
    assert_eq!(view.as_str(), Err(ErrorKind::InvalidEncoding));
}

#[test]
fn rejects_surrogate_codepoint() {
    let req = request_with_body(vec![0xed, 0xa0, 0x80]);
    let view = RequestBody::new(&req);
    assert_eq!(view.as_str(), Err(ErrorKind::InvalidEncoding));
}

#[test]
fn rejects_codepoint_beyond_scalar_range() {
    let req = request_with_body(vec![0xf4, 0x90, 0x80, 0x80]);
    let view = RequestBody::new(&req);
    assert_eq!(view.as_str(), Err(ErrorKind::InvalidEncoding));
}

#[test]
fn missing_request_body_structure() {
    let req = Request {
        headers_out: HeadersOut { status: 0, content_length: None },
        request_body: None,
        pool: Pool::new(0),
    };
    let view = RequestBody::new(&req);
    assert_eq!(view.as_str(), Err(ErrorKind::BodyNotInitialized));
}

#[test]
fn missing_chain_head() {
    let req = Request {
        headers_out: HeadersOut { status: 0, content_length: None },
        request_body: Some(RequestBodyState { bufs: None }),
        pool: Pool::new(0),
    };
    let view = RequestBody::new(&req);
    assert_eq!(view.as_str(), Err(ErrorKind::BodyNotInitialized));
}

#[test]
fn missing_head_buffer() {
    let req = Request {
        headers_out: HeadersOut { status: 0, content_length: None },
        request_body: Some(RequestBodyState {
            bufs: Some(ChainNode { buf: None, next: None }),
        }),
        pool: Pool::new(0),
    };
    let view = RequestBody::new(&req);
    assert_eq!(view.as_str(), Err(ErrorKind::BodyNotInitialized));
}

#[test]
fn error_messages() {
    assert_eq!(
        ErrorKind::BodyNotInitialized.message(),
        "Request body buffers were not initialized as expected"
    );
    assert_eq!(ErrorKind::InvalidEncoding.message(), "Body contains invalid UTF-8");
    assert_eq!(ErrorKind::HeaderSendFailed.message(), "failed to send headers");
    assert_eq!(ErrorKind::AllocationFailed.message(), "Failed to allocate buffer");
    assert_eq!(
        ErrorKind::OutputFilterFailed.message(),
        "Failed to perform http output filter chain"
    );
}
