//! Plain wire-level data: the HTTP method, the status code, and the request
//! and response shapes this layer exchanges with transport implementations.

use vstd::prelude::*;

verus! {

/// The HTTP method of an outbound request.
#[derive(Clone, Copy, PartialEq, Eq, Structural, Debug)]
pub enum Method {
    Get,
    Head,
    Post,
    Put,
    Delete,
    Connect,
    Options,
    Trace,
    Patch,
}

/// An HTTP status code, as the transport reported it.
#[derive(Clone, Copy, PartialEq, Eq, Structural, Debug)]
pub struct StatusCode {
    pub code: u16,
}

impl StatusCode {
    /// A response counts as successful exactly when its status is in the 2xx class.
    pub open spec fn spec_is_success(self) -> bool {
        200 <= self.code < 300
    }

    /// Success is decided purely by the status class; no endpoint-specific
    /// override exists at this layer.
    pub fn is_success(&self) -> (b: bool)
        ensures
            b == self.spec_is_success(),
    {
        200 <= self.code && self.code < 300
    }
}

/// `http::Uri` is carried opaquely: this layer only obtains one from a
/// resolved URL for the transport's benefit, never inspecting it.
#[verifier::external_type_specification]
#[verifier::external_body]
pub struct ExUri(http::Uri);

/// The view of an attached `Content-Type` header.
pub open spec fn content_type_view(ct: Option<String>) -> Option<Seq<char>> {
    match ct {
        None => None,
        Some(s) => Some(s@),
    }
}

/// An outbound request descriptor: the method, the fully resolved target
/// (base + path + query string), and the single `Content-Type` header this
/// layer may attach. The body bytes travel beside it as a separate payload.
pub struct Request {
    pub method: Method,
    pub url: url::Url,
    pub content_type: Option<String>,
}

impl Request {
    /// The target as an `http::Uri`, for transports built on the `http`
    /// crate's types, or `None` when that crate rejects the URL's
    /// serialization (an over-long URL, a scheme without an authority).
    pub fn uri(&self) -> (r: Option<http::Uri>)
        ensures
            r == crate::query::uri_of(self.url),
    {
        crate::query::url_to_http_uri(self.url.clone())
    }
}

/// A full transport response: the reported status code and the raw body bytes.
pub struct Response {
    pub status: StatusCode,
    pub body: Vec<u8>,
}

} // verus!
