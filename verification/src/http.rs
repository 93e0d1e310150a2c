//! The HTTP-level data the pipeline works on.
//!
//! A request is the ephemeral record of one inbound call: method, path, the
//! two headers the pipeline reads, and the raw body.  A response is a status
//! code with a body.  All text is carried as bytes and viewed as `Seq<u8>`.

use vstd::prelude::*;

verus! {

/// One inbound request, as the pipeline sees it.
pub struct Request {
    /// The request method, such as `GET` or `POST`.
    pub method: Vec<u8>,
    /// The request path, such as `/` or `/predict`.
    pub path: Vec<u8>,
    /// The `Authorization` header value, if the request carried one.
    pub authorization: Option<Vec<u8>>,
    /// The `Content-Type` header value, if the request carried one.
    pub content_type: Option<Vec<u8>>,
    /// The raw request body.
    pub body: Vec<u8>,
}

/// The mathematical shadow of a `Request`.
pub struct RequestView {
    pub method: Seq<u8>,
    pub path: Seq<u8>,
    pub authorization: Option<Seq<u8>>,
    pub content_type: Option<Seq<u8>>,
    pub body: Seq<u8>,
}

impl View for Request {
    type V = RequestView;

    open spec fn view(&self) -> RequestView {
        RequestView {
            method: self.method@,
            path: self.path@,
            authorization: match self.authorization {
                Option::Some(v) => Option::Some(v@),
                Option::None => Option::None,
            },
            content_type: match self.content_type {
                Option::Some(v) => Option::Some(v@),
                Option::None => Option::None,
            },
            body: self.body@,
        }
    }
}

/// One outbound response: a status code and a body.
pub struct Response {
    /// The HTTP status code.
    pub status: u16,
    /// The response body.
    pub body: Vec<u8>,
}

/// The mathematical shadow of a `Response`.
pub struct ResponseView {
    pub status: int,
    pub body: Seq<u8>,
}

impl View for Response {
    type V = ResponseView;

    open spec fn view(&self) -> ResponseView {
        ResponseView { status: self.status as int, body: self.body@ }
    }
}

} // verus!
