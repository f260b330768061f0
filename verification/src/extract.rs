//! Taking a request apart. The parts of a request that can be taken only
//! once, its headers, its extensions and its body, each leave an empty
//! place behind when an extractor takes them.

use crate::router::method_filter::Method;
use crate::text::{str_eq, string_from_utf8};
use vstd::prelude::*;
use vstd::string::*;

verus! {

/// The version of the protocol a request came with.
#[derive(Clone, Copy, Debug, PartialEq, Eq, Structural)]
pub enum Version {
    Http09,
    Http10,
    Http11,
    Http2,
    Http3,
}

/// A request with headers `H`, extensions `E` and body `B`.
#[derive(Debug, PartialEq, Eq)]
pub struct Request<H, E, B> {
    pub method: Method,
    pub uri: String,
    pub version: Version,
    pub headers: H,
    pub extensions: E,
    pub body: B,
}

/// A request from which extractors take what they need.
#[derive(Debug)]
pub struct RequestParts<H, E, B> {
    method: Method,
    uri: String,
    version: Version,
    headers: Option<H>,
    extensions: Option<E>,
    body: Option<B>,
}

/// The headers were taken by another extractor.
#[derive(Clone, Copy, Debug, PartialEq, Eq, Structural)]
pub struct HeadersAlreadyExtracted;

/// The extensions were taken by another extractor.
#[derive(Clone, Copy, Debug, PartialEq, Eq, Structural)]
pub struct ExtensionsAlreadyExtracted;

/// The body was taken by another extractor.
#[derive(Clone, Copy, Debug, PartialEq, Eq, Structural)]
pub struct BodyAlreadyExtracted;

/// Why the parts cannot be put together as a request again.
#[derive(Clone, Copy, Debug, PartialEq, Eq, Structural)]
pub enum RequestAlreadyExtracted {
    BodyAlreadyExtracted(BodyAlreadyExtracted),
    HeadersAlreadyExtracted(HeadersAlreadyExtracted),
    ExtensionsAlreadyExtracted(ExtensionsAlreadyExtracted),
}

/// Why the body of a request is not a string.
#[derive(Debug, PartialEq, Eq)]
pub enum StringRejection<E> {
    /// The body was taken by another extractor.
    BodyAlreadyExtracted(BodyAlreadyExtracted),
    /// The body could not be read to its end.
    FailedToBufferBody(E),
    /// The body is not UTF-8.
    InvalidUtf8,
}

/// The body of a request as it streams in.
#[derive(Debug)]
pub struct BodyStream<B>(pub B);

/// The body of a request.
#[derive(Debug)]
pub struct Body<B>(pub B);

/// The value of the content type header of a request.
#[derive(Debug, PartialEq, Eq)]
pub enum ContentType {
    /// The request has no such header.
    Missing,
    /// The header holds bytes that are not visible text.
    Opaque,
    /// The header holds this text.
    Text(String),
}

/// The mathematical form of [`RequestParts`].
pub struct PartsView<H, E, B> {
    pub method: Method,
    pub uri: Seq<char>,
    pub version: Version,
    pub headers: Option<H>,
    pub extensions: Option<E>,
    pub body: Option<B>,
}

impl<H, E, B> View for RequestParts<H, E, B> {
    type V = PartsView<H, E, B>;

    closed spec fn view(&self) -> PartsView<H, E, B> {
        PartsView {
            method: self.method,
            uri: self.uri@,
            version: self.version,
            headers: self.headers,
            extensions: self.extensions,
            body: self.body,
        }
    }
}

impl<H, E, B> PartsView<H, E, B> {
    /// What stands in the way of putting the parts together: the body is
    /// looked at first, then the headers, then the extensions.
    pub open spec fn missing(self) -> Option<RequestAlreadyExtracted> {
        if self.body is None {
            Some(RequestAlreadyExtracted::BodyAlreadyExtracted(BodyAlreadyExtracted))
        } else if self.headers is None {
            Some(RequestAlreadyExtracted::HeadersAlreadyExtracted(HeadersAlreadyExtracted))
        } else if self.extensions is None {
            Some(RequestAlreadyExtracted::ExtensionsAlreadyExtracted(ExtensionsAlreadyExtracted))
        } else {
            None
        }
    }

    /// The parts after everything that can be taken was taken.
    pub open spec fn emptied(self) -> Self {
        PartsView { headers: None, extensions: None, body: None, ..self }
    }
}

impl<H, E, B> RequestParts<H, E, B> {
    /// The parts of `req`, with nothing taken yet.
    pub fn new(req: Request<H, E, B>) -> (parts: RequestParts<H, E, B>)
        ensures
            parts@ == (PartsView {
                method: req.method,
                uri: req.uri@,
                version: req.version,
                headers: Some(req.headers),
                extensions: Some(req.extensions),
                body: Some(req.body),
            }),
    {
        let Request { method, uri, version, headers, extensions, body } = req;
        RequestParts {
            method,
            uri,
            version,
            headers: Some(headers),
            extensions: Some(extensions),
            body: Some(body),
        }
    }

    /// The request the parts make up, if nothing was taken. Otherwise the
    /// error names what is missing: the body before the headers, the
    /// headers before the extensions.
    pub fn try_into_request(self) -> (r: Result<Request<H, E, B>, RequestAlreadyExtracted>)
        ensures
            match self@.missing() {
                Some(e) => r == Err::<Request<H, E, B>, RequestAlreadyExtracted>(e),
                None => {
                    &&& r matches Ok(req)
                    &&& req.method == self@.method
                    &&& req.uri@ == self@.uri
                    &&& req.version == self@.version
                    &&& Some(req.headers) == self@.headers
                    &&& Some(req.extensions) == self@.extensions
                    &&& Some(req.body) == self@.body
                },
            },
    {
        let RequestParts { method, uri, version, headers, extensions, body } = self;
        let body = match body {
            Some(body) => body,
            None => {
                return Err(RequestAlreadyExtracted::BodyAlreadyExtracted(BodyAlreadyExtracted));
            },
        };
        let headers = match headers {
            Some(headers) => headers,
            None => {
                return Err(
                    RequestAlreadyExtracted::HeadersAlreadyExtracted(HeadersAlreadyExtracted),
                );
            },
        };
        let extensions = match extensions {
            Some(extensions) => extensions,
            None => {
                return Err(
                    RequestAlreadyExtracted::ExtensionsAlreadyExtracted(ExtensionsAlreadyExtracted),
                );
            },
        };
        Ok(Request { method, uri, version, headers, extensions, body })
    }

    /// The method of the request.
    pub fn method(&self) -> (m: &Method)
        ensures
            *m == self@.method,
    {
        &self.method
    }

    /// The method of the request, to be changed.
    pub fn method_mut(&mut self) -> (m: &mut Method)
        ensures
            *m == old(self)@.method,
            final(self)@ == (PartsView { method: *final(m), ..old(self)@ }),
    {
        &mut self.method
    }

    /// The target of the request.
    pub fn uri(&self) -> (u: &String)
        ensures
            u@ == self@.uri,
    {
        &self.uri
    }

    /// The target of the request, to be changed.
    pub fn uri_mut(&mut self) -> (u: &mut String)
        ensures
            u@ == old(self)@.uri,
            final(self)@ == (PartsView { uri: final(u)@, ..old(self)@ }),
    {
        &mut self.uri
    }

    /// The protocol version of the request.
    pub fn version(&self) -> (v: Version)
        ensures
            v == self@.version,
    {
        self.version
    }

    /// The protocol version of the request, to be changed.
    pub fn version_mut(&mut self) -> (v: &mut Version)
        ensures
            *v == old(self)@.version,
            final(self)@ == (PartsView { version: *final(v), ..old(self)@ }),
    {
        &mut self.version
    }

    /// The headers, unless they were taken.
    pub fn headers(&self) -> (h: Option<&H>)
        ensures
            match self@.headers {
                Some(x) => h == Some(&x),
                None => h is None,
            },
    {
        self.headers.as_ref()
    }

    /// The headers, to be changed, unless they were taken.
    pub fn headers_mut(&mut self) -> (x: Option<&mut H>)
        ensures
            match old(self)@.headers {
                Some(before) => {
                    &&& x is Some
                    &&& *x->Some_0 == before
                    &&& final(self)@ == (PartsView {
                        headers: Some(*final(x->Some_0)),
                        ..old(self)@
                    })
                },
                None => x is None && final(self)@ == old(self)@,
            },
    {
        self.headers.as_mut()
    }

    /// Takes the headers, leaving none.
    pub fn take_headers(&mut self) -> (h: Option<H>)
        ensures
            h == old(self)@.headers,
            final(self)@ == (PartsView { headers: None, ..old(self)@ }),
    {
        self.headers.take()
    }

    /// The extensions, unless they were taken.
    pub fn extensions(&self) -> (e: Option<&E>)
        ensures
            match self@.extensions {
                Some(x) => e == Some(&x),
                None => e is None,
            },
    {
        self.extensions.as_ref()
    }

    /// The extensions, to be changed, unless they were taken.
    pub fn extensions_mut(&mut self) -> (x: Option<&mut E>)
        ensures
            match old(self)@.extensions {
                Some(before) => {
                    &&& x is Some
                    &&& *x->Some_0 == before
                    &&& final(self)@ == (PartsView {
                        extensions: Some(*final(x->Some_0)),
                        ..old(self)@
                    })
                },
                None => x is None && final(self)@ == old(self)@,
            },
    {
        self.extensions.as_mut()
    }

    /// Takes the extensions, leaving none.
    pub fn take_extensions(&mut self) -> (e: Option<E>)
        ensures
            e == old(self)@.extensions,
            final(self)@ == (PartsView { extensions: None, ..old(self)@ }),
    {
        self.extensions.take()
    }

    /// The body, unless it was taken.
    pub fn body(&self) -> (b: Option<&B>)
        ensures
            match self@.body {
                Some(x) => b == Some(&x),
                None => b is None,
            },
    {
        self.body.as_ref()
    }

    /// The body, to be changed, unless it was taken.
    pub fn body_mut(&mut self) -> (x: Option<&mut B>)
        ensures
            match old(self)@.body {
                Some(before) => {
                    &&& x is Some
                    &&& *x->Some_0 == before
                    &&& final(self)@ == (PartsView {
                        body: Some(*final(x->Some_0)),
                        ..old(self)@
                    })
                },
                None => x is None && final(self)@ == old(self)@,
            },
    {
        self.body.as_mut()
    }

    /// Takes the body, leaving none.
    pub fn take_body(&mut self) -> (b: Option<B>)
        ensures
            b == old(self)@.body,
            final(self)@ == (PartsView { body: None, ..old(self)@ }),
    {
        self.body.take()
    }

    /// Takes the whole request out of the parts. Whatever the result, the
    /// parts keep their method, target and version and have nothing left
    /// that can be taken.
    pub fn from_request(&mut self) -> (r: Result<Request<H, E, B>, RequestAlreadyExtracted>)
        ensures
            final(self)@ == old(self)@.emptied(),
            match old(self)@.missing() {
                Some(e) => r == Err::<Request<H, E, B>, RequestAlreadyExtracted>(e),
                None => {
                    &&& r matches Ok(req)
                    &&& req.method == old(self)@.method
                    &&& req.uri@ == old(self)@.uri
                    &&& req.version == old(self)@.version
                    &&& Some(req.headers) == old(self)@.headers
                    &&& Some(req.extensions) == old(self)@.extensions
                    &&& Some(req.body) == old(self)@.body
                },
            },
    {
        let taken = RequestParts {
            method: self.method,
            uri: self.uri.clone(),
            version: self.version,
            headers: self.headers.take(),
            extensions: self.extensions.take(),
            body: self.body.take(),
        };
        taken.try_into_request()
    }
}

/// Takes the body out of the parts, or says that it is gone.
pub fn take_body<H, E, B>(req: &mut RequestParts<H, E, B>) -> (r: Result<B, BodyAlreadyExtracted>)
    ensures
        match old(req)@.body {
            Some(b) => r == Ok::<B, BodyAlreadyExtracted>(b),
            None => r is Err,
        },
        final(req)@ == (PartsView { body: None, ..old(req)@ }),
{
    match req.take_body() {
        Some(b) => Ok(b),
        None => Err(BodyAlreadyExtracted),
    }
}

/// The body of a request as a string. `body` is what taking the body gave
/// and, if there was a body, what reading it to its end gave. A body that
/// was taken before, a body that could not be read and a body that is not
/// UTF-8 are each refused in their own way.
pub fn string_from_request<E>(body: Result<Result<Vec<u8>, E>, BodyAlreadyExtracted>) -> (r: Result<
    String,
    StringRejection<E>,
>)
    ensures
        match body {
            Err(gone) => r == Err::<String, StringRejection<E>>(
                StringRejection::BodyAlreadyExtracted(gone),
            ),
            Ok(Err(e)) => r == Err::<String, StringRejection<E>>(
                StringRejection::FailedToBufferBody(e),
            ),
            Ok(Ok(bytes)) => if vstd::utf8::valid_utf8(bytes@) {
                r matches Ok(s) && s@ == vstd::utf8::decode_utf8(bytes@)
            } else {
                r == Err::<String, StringRejection<E>>(StringRejection::InvalidUtf8)
            },
        },
{
    match body {
        Err(gone) => Err(StringRejection::BodyAlreadyExtracted(gone)),
        Ok(Err(e)) => Err(StringRejection::FailedToBufferBody(e)),
        Ok(Ok(bytes)) => match string_from_utf8(bytes) {
            Some(s) => Ok(s),
            None => Err(StringRejection::InvalidUtf8),
        },
    }
}

/// Whether the content type `found` begins with `expected`.
pub open spec fn content_type_matches(found: ContentType, expected: Seq<char>) -> bool {
    match found {
        ContentType::Text(t) => expected.is_prefix_of(t@),
        _ => false,
    }
}

/// Whether the content type of a request begins with
/// `expected_content_type`. `content_type` is the value of the header, or
/// nothing if the headers of the request were taken, which is an error. A
/// header that is missing or not text matches nothing.
pub fn has_content_type(content_type: Option<&ContentType>, expected_content_type: &str) -> (r:
    Result<bool, HeadersAlreadyExtracted>)
    ensures
        match content_type {
            Some(found) => r == Ok::<bool, HeadersAlreadyExtracted>(
                content_type_matches(*found, expected_content_type@),
            ),
            None => r is Err,
        },
{
    let found = match content_type {
        Some(found) => found,
        None => {
            return Err(HeadersAlreadyExtracted);
        },
    };
    match found {
        ContentType::Text(text) => {
            let n: usize = expected_content_type.unicode_len();
            if n > text.as_str().unicode_len() {
                Ok(false)
            } else {
                let head = text.as_str().substring_char(0, n);
                Ok(str_eq(head, expected_content_type))
            }
        },
        _ => Ok(false),
    }
}

} // verus!
