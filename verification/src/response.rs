//! What an answer is made of, and how plain values become answers.

use vstd::prelude::*;
use vstd::string::*;

verus! {

/// The status "OK".
pub const OK: u16 = 200;

/// The content type of text.
pub const TEXT_PLAIN: &'static str = "text/plain";

/// The content type of bytes.
pub const OCTET_STREAM: &'static str = "application/octet-stream";

/// An answer: a status, a content type where one is given, and a body.
#[derive(Debug, PartialEq, Eq)]
pub struct Response {
    pub status: u16,
    pub content_type: Option<&'static str>,
    pub body: Vec<u8>,
}

/// The mathematical form of a [`Response`].
pub struct ResponseView {
    pub status: u16,
    pub content_type: Option<Seq<char>>,
    pub body: Seq<u8>,
}

impl View for Response {
    type V = ResponseView;

    open spec fn view(&self) -> ResponseView {
        ResponseView {
            status: self.status,
            content_type: match self.content_type {
                Some(t) => Some(t@),
                None => None,
            },
            body: self.body@,
        }
    }
}

/// A value that can be sent as an answer.
pub trait IntoResponse: Sized {
    /// The answer the value becomes.
    spec fn response(self) -> ResponseView;

    /// Makes the answer.
    fn into_response(self) -> (r: Response)
        ensures
            r@ == self.response(),
    ;
}

/// Nothing is an empty answer.
impl IntoResponse for () {
    open spec fn response(self) -> ResponseView {
        ResponseView { status: OK, content_type: None, body: Seq::empty() }
    }

    fn into_response(self) -> (r: Response) {
        Response { status: OK, content_type: None, body: Vec::new() }
    }
}

/// An answer is itself.
impl IntoResponse for Response {
    open spec fn response(self) -> ResponseView {
        self@
    }

    fn into_response(self) -> (r: Response) {
        self
    }
}

/// Text is an answer of type `text/plain` whose body is the bytes of the
/// text.
impl IntoResponse for String {
    open spec fn response(self) -> ResponseView {
        ResponseView {
            status: OK,
            content_type: Some(TEXT_PLAIN@),
            body: vstd::utf8::encode_utf8(self@),
        }
    }

    fn into_response(self) -> (r: Response) {
        Response {
            status: OK,
            content_type: Some(TEXT_PLAIN),
            body: self.as_str().as_bytes_vec(),
        }
    }
}

/// Text is an answer of type `text/plain` whose body is the bytes of the
/// text.
impl IntoResponse for &'static str {
    open spec fn response(self) -> ResponseView {
        ResponseView {
            status: OK,
            content_type: Some(TEXT_PLAIN@),
            body: vstd::utf8::encode_utf8(self@),
        }
    }

    fn into_response(self) -> (r: Response) {
        Response { status: OK, content_type: Some(TEXT_PLAIN), body: self.as_bytes_vec() }
    }
}

/// Bytes are an answer of type `application/octet-stream`.
impl IntoResponse for Vec<u8> {
    open spec fn response(self) -> ResponseView {
        ResponseView { status: OK, content_type: Some(OCTET_STREAM@), body: self@ }
    }

    fn into_response(self) -> (r: Response) {
        Response { status: OK, content_type: Some(OCTET_STREAM), body: self }
    }
}

/// A status alone is an empty answer with that status.
impl IntoResponse for u16 {
    open spec fn response(self) -> ResponseView {
        ResponseView { status: self, content_type: None, body: Seq::empty() }
    }

    fn into_response(self) -> (r: Response) {
        Response { status: self, content_type: None, body: Vec::new() }
    }
}

/// A status with a value is the answer of the value, with the status put
/// in place of its own.
impl<T: IntoResponse> IntoResponse for (u16, T) {
    open spec fn response(self) -> ResponseView {
        ResponseView { status: self.0, ..self.1.response() }
    }

    fn into_response(self) -> (r: Response) {
        let mut res = self.1.into_response();
        res.status = self.0;
        res
    }
}

/// A result is the answer of whichever value it holds.
impl<T: IntoResponse, E: IntoResponse> IntoResponse for Result<T, E> {
    open spec fn response(self) -> ResponseView {
        match self {
            Ok(value) => value.response(),
            Err(err) => err.response(),
        }
    }

    fn into_response(self) -> (r: Response) {
        match self {
            Ok(value) => value.into_response(),
            Err(err) => err.into_response(),
        }
    }
}

} // verus!
