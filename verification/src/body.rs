//! A read-only, zero-copy view of a request's first body buffer as
//! validated text.

use vstd::prelude::*;
use vstd::string::StringSliceAdditionalSpecFns;
use vstd::utf8::{decode_utf8, encode_utf8_decode_utf8, valid_utf8};

use crate::encoding::{bytes_as_str, check_utf8};
use crate::error::ErrorKind;
use crate::request::{body_bytes, Request};

verus! {

/// A borrowing view over one request's body, valid only while the host
/// leaves the request untouched: read it immediately after body-read
/// completion and do not retain it past that window.
pub struct RequestBody<'a> {
    request: &'a Request,
}

impl<'a> RequestBody<'a> {
    /// The request this view reads from.
    pub closed spec fn req(self) -> Request {
        *self.request
    }

    /// Wrap a request whose body reading has completed in a body view.
    pub fn new(request: &'a Request) -> (r: Self)
        ensures
            r.req() == *request,
    {
        Self { request }
    }

    /// The bytes of the request's first body buffer, interpreted as UTF-8
    /// text, borrowed without a copy.
    ///
    /// Fails with [`ErrorKind::BodyNotInitialized`] exactly when the
    /// request-body structure, the buffer-chain head, or the head node's
    /// buffer is missing, and with [`ErrorKind::InvalidEncoding`] exactly
    /// when the bytes are present but not valid UTF-8.
    pub fn as_str(&self) -> (r: Result<&'a str, ErrorKind>)
        ensures
            body_bytes(self.req()) is None ==> r == Err::<&'a str, ErrorKind>(
                ErrorKind::BodyNotInitialized,
            ),
            body_bytes(self.req()) matches Some(bytes) ==> {
                &&& valid_utf8(bytes) ==> {
                    &&& r matches Ok(s)
                    &&& s.spec_bytes() == bytes
                    &&& s@ == decode_utf8(bytes)
                }
                &&& !valid_utf8(bytes) ==> r == Err::<&'a str, ErrorKind>(
                    ErrorKind::InvalidEncoding,
                )
            },
    {
        let request: &'a Request = self.request;
        match &request.request_body {
            None => Err(ErrorKind::BodyNotInitialized),
            Some(rb) => match &rb.bufs {
                None => Err(ErrorKind::BodyNotInitialized),
                Some(node) => match &node.buf {
                    None => Err(ErrorKind::BodyNotInitialized),
                    Some(b) => {
                        let body: &'a [u8] = b.bytes.as_slice();
                        if check_utf8(body) {
                            let text = bytes_as_str(body);
                            proof {
                                encode_utf8_decode_utf8(text@);
                            }
                            Ok(text)
                        } else {
                            Err(ErrorKind::InvalidEncoding)
                        }
                    },
                },
            },
        }
    }
}

} // verus!
