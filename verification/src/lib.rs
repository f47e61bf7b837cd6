//! A transport-agnostic layer for declaring REST API endpoints and executing
//! them against pluggable clients, with a closed error taxonomy that spans
//! transport failures, encoding failures and server-reported failures.

use vstd::prelude::*;

pub mod client;
pub mod endpoint;
pub mod endpoint_prelude;
pub mod error;
pub mod mock;
pub mod params;
pub mod query;
pub mod types;

use crate::client::Client;
use crate::endpoint::Endpoint;
use crate::error::ApiError;
use crate::params::{params_fit, url_with_params};
use crate::query::{
    body_content_type, body_payload, finish_raw, prepare, transfer_classified, Prepared, Query,
};

verus! {

/// A query modifier that returns the raw data from the endpoint.
#[derive(Debug, Clone, Copy, PartialEq, Eq)]
pub struct Raw<E> {
    /// The wrapped endpoint, owned exclusively.
    pub endpoint: E,
}

/// Return the raw data from the endpoint.
pub fn raw<E>(endpoint: E) -> (r: Raw<E>)
    ensures
        r == (Raw { endpoint }),
{
    Raw { endpoint }
}

impl<E, C> Query<Vec<u8>, C> for Raw<E> where E: Endpoint, C: Client {
    /// The raw query's contract: a resolution failure propagates unchanged; a
    /// URL without room for the parameters under the `url` crate's
    /// serialization limit yields a URL-parse failure; a failing body producer
    /// yields its encoding failure (exactly the fixed value, where the
    /// producer fixes one) and the transport is never consulted; otherwise one
    /// request goes out, carrying the endpoint's method, the resolved URL with
    /// every query parameter appended in order, the declared `Content-Type`
    /// (absent without a body) and the declared payload, and the client's
    /// fixed outcome for it is classified — success bytes pass through
    /// unchanged, any non-success status becomes the unstructured server
    /// failure with that exact status and body.
    open spec fn query_ensures(&self, client: &C, r: Result<Vec<u8>, ApiError<C::Error>>) -> bool {
        match client.spec_rest_endpoint(self.endpoint.spec_endpoint()) {
            Err(e) => r == Err::<Vec<u8>, ApiError<C::Error>>(e),
            Ok(u0) => if !params_fit(u0, self.endpoint.spec_parameters()) {
                (r matches Err(e) && e is UrlParse)
            } else {
                match self.endpoint.spec_body() {
                    Err(fixed_err) => (r matches Err(e) && e matches ApiError::Body { source } && (
                    fixed_err matches Some(be) ==> source == be)),
                    Ok(fixed) => transfer_classified(
                        client.spec_rest(
                            self.endpoint.spec_method(),
                            url_with_params(u0, self.endpoint.spec_parameters()),
                            body_content_type(fixed),
                            body_payload(fixed),
                        ),
                        r,
                    ),
                }
            },
        }
    }

    fn query(&self, client: &C) -> (r: Result<Vec<u8>, ApiError<C::Error>>) {
        match prepare(&self.endpoint, client) {
            Prepared::Abort(e) => Err(e),
            Prepared::Transfer(req, payload) => {
                let outcome = client.rest(req, payload);
                finish_raw(outcome)
            },
        }
    }
}

} // verus!
