//! Client capability contracts: URL resolution and blocking transfer
//! execution. Implementations fix their behaviour in spec functions, so that
//! query execution can be specified against any client.

use crate::error::ApiError;
use crate::types::{content_type_view, Method, Request, Response, StatusCode};
use vstd::prelude::*;

verus! {

/// `url::Url` carried opaquely: a client produces one by resolving an
/// endpoint path against its configured base location; this layer only
/// appends query parameters to it and serializes it into a URI.
#[verifier::external_type_specification]
#[verifier::external_body]
pub struct ExUrl(url::Url);

/// Relies on `url::Url`'s derived `Clone`: the clone equals the original.
pub assume_specification[ <url::Url as Clone>::clone ](u: &url::Url) -> (r: url::Url)
    ensures
        r == *u,
;

/// A client which can resolve endpoint paths for a generic instance.
pub trait RestClient {
    /// The errors which may occur for this client: a statically-named value
    /// that is safely transferable across thread and task boundaries, so it
    /// can propagate out of either execution strategy.
    type Error: Send + Sync + 'static;

    /// The URL this client resolves a given endpoint path to, or the error it
    /// rejects the path with.
    spec fn spec_rest_endpoint(&self, endpoint: Seq<char>) -> Result<
        url::Url,
        ApiError<Self::Error>,
    >;

    /// Get the URL for the endpoint for the client.
    ///
    /// This method combines the path with the client's configured base
    /// location: the single point where "which server" is decided.
    fn rest_endpoint(&self, endpoint: &str) -> (r: Result<url::Url, ApiError<Self::Error>>)
        ensures
            r == self.spec_rest_endpoint(endpoint@),
    ;
}

/// What a transfer outcome fixed by [`Client::spec_rest`] says of the value
/// the call actually returned: the same error, or a response carrying the
/// fixed status and body bytes.
pub open spec fn rest_agrees<E>(
    fixed: Result<(StatusCode, Seq<u8>), ApiError<E>>,
    r: Result<Response, ApiError<E>>,
) -> bool {
    match fixed {
        Ok((status, body)) => (r matches Ok(rsp) && rsp.status == status && rsp.body@ == body),
        Err(e) => r == Err::<Response, ApiError<E>>(e),
    }
}

/// A client which can communicate with a generic instance: it performs one
/// blocking transfer per query, on the calling thread.
pub trait Client: RestClient {
    /// The outcome this client produces for a given method, target URL,
    /// `Content-Type` header and body payload: a status code with body bytes,
    /// or a transport error.
    spec fn spec_rest(
        &self,
        method: Method,
        url: url::Url,
        content_type: Option<Seq<char>>,
        body: Seq<u8>,
    ) -> Result<(StatusCode, Seq<u8>), ApiError<Self::Error>>;

    /// Send a REST query: perform the transfer and return the full response,
    /// or fail with the wrapped transport error.
    fn rest(&self, request: Request, body: Vec<u8>) -> (r: Result<
        Response,
        ApiError<Self::Error>,
    >)
        ensures
            rest_agrees(
                self.spec_rest(
                    request.method,
                    request.url,
                    content_type_view(request.content_type),
                    body@,
                ),
                r,
            ),
    ;
}

} // verus!
