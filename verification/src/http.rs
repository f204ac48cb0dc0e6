//! What the client exchanges with the transport that a driver supplies:
//! the full description of one request to perform, and the raw outcome
//! the driver observed.

use vstd::prelude::*;

verus! {

/// The verb of a request.
#[derive(Clone, Copy, Debug, PartialEq, Eq, Structural)]
pub enum Method {
    Get,
    Post,
    Patch,
    Delete,
}

/// One fully built request: everything a transport needs to perform it.
/// The two headers are part of the request, so a driver adds nothing of
/// its own.
#[derive(Debug)]
pub struct HttpRequest {
    pub method: Method,
    /// The absolute URL.
    pub url: String,
    /// The exact value of the `Authorization` header.
    pub authorization: String,
    /// The exact value of the `User-Agent` header.
    pub user_agent: String,
    /// The JSON body, for POST and PATCH.
    pub body: Option<String>,
}

/// The mathematical image of an [`HttpRequest`].
pub struct HttpRequestV {
    pub method: Method,
    pub url: Seq<char>,
    pub authorization: Seq<char>,
    pub user_agent: Seq<char>,
    pub body: Option<Seq<char>>,
}

impl View for HttpRequest {
    type V = HttpRequestV;

    open spec fn view(&self) -> HttpRequestV {
        HttpRequestV {
            method: self.method,
            url: self.url@,
            authorization: self.authorization@,
            user_agent: self.user_agent@,
            body: match self.body {
                Some(b) => Some(b@),
                None => None,
            },
        }
    }
}

/// What performing a request yielded: either a transport failure below
/// the HTTP level (with the transport's message), or a status code and
/// the response body.
#[derive(Debug)]
pub enum HttpOutcome {
    Failure(String),
    Response(u16, String),
}

/// A successful HTTP status.
pub open spec fn spec_is_success(status: u16) -> bool {
    200 <= status && status < 300
}

} // verus!
