//! Query execution: the strategy-independent pipeline that turns an endpoint
//! description into one outbound transfer and classifies the outcome.
//!
//! Every step but the transfer itself is shared by the blocking and the
//! suspending execution strategies: [`prepare`] resolves the URL, appends the
//! query parameters and builds the request with its body payload, and
//! [`finish_raw`] classifies the transfer outcome. An execution strategy only
//! supplies the transfer in between.

use crate::client::{Client, RestClient};
use crate::endpoint::Endpoint;
use crate::error::{ApiError, BodyError};
use crate::params::{params_fit, url_with_params};
use crate::types::{content_type_view, Method, Request, Response, StatusCode};
use vstd::prelude::*;

verus! {

/// Relies on `url::ParseError::Overflow`: the `url` crate's own error value
/// for serializations beyond its machine limit.
#[verifier::external_body]
fn overflow_parse_error() -> url::ParseError {
    url::ParseError::Overflow
}

/// The URI that a URL's serialization reparses to, or `None` where the `http`
/// crate rejects that serialization. The result depends on the URL alone.
pub uninterp spec fn uri_of(u: url::Url) -> Option<http::Uri>;

/// Relies on `url::Url::as_str` and `str::parse::<http::Uri>`: the URL's
/// serialization reparsed as a URI — what `uri_of` names — or `None` where
/// the `http` crate rejects it (an over-long URL, a scheme without an
/// authority).
#[verifier::external_body]
pub fn url_to_http_uri(url: url::Url) -> (r: Option<http::Uri>)
    ensures
        r == uri_of(url),
{
    url.as_str().parse::<http::Uri>().ok()
}

/// One query's outbound work, ready for the transport: either a request
/// descriptor with its body payload, or the failure that classifies the whole
/// call before any transfer happens.
pub enum Prepared<E> {
    /// Hand this request and payload to the transport.
    Transfer(Request, Vec<u8>),
    /// The call is already classified; the transport is never invoked.
    Abort(ApiError<E>),
}

/// The payload bytes a fixed body description puts on the wire: the declared
/// bytes, or empty when the endpoint declares no body.
pub open spec fn body_payload(fixed: Option<(Seq<char>, Seq<u8>)>) -> Seq<u8> {
    match fixed {
        None => Seq::<u8>::empty(),
        Some((_mime, data)) => data,
    }
}

/// The `Content-Type` header a fixed body description attaches: absent
/// exactly when no body is declared, otherwise exactly the declared MIME
/// type.
pub open spec fn body_content_type(fixed: Option<(Seq<char>, Seq<u8>)>) -> Option<Seq<char>> {
    match fixed {
        None => None,
        Some((mime, _data)) => Some(mime),
    }
}

/// What preparing one query yields, given the client's fixed resolution
/// outcome and the endpoint's fixed method, parameters and body description:
/// a resolution failure propagates unchanged; a URL without room for the
/// parameters under the `url` crate's serialization limit aborts as a
/// URL-parse failure; a failing body producer aborts with its encoding
/// failure (exactly the fixed value, where the producer fixes one); otherwise
/// the transfer targets the resolved URL with every query parameter appended
/// in order, and carries the endpoint's method, a `Content-Type` header
/// exactly when a body is declared, and exactly the declared payload bytes
/// (empty without a body).
pub open spec fn prepared<X>(
    resolve: Result<url::Url, ApiError<X>>,
    method: Method,
    params: Seq<(Seq<char>, Seq<char>)>,
    body: Result<Option<(Seq<char>, Seq<u8>)>, Option<BodyError>>,
    step: Prepared<X>,
) -> bool {
    match resolve {
        Err(e) => step == Prepared::<X>::Abort(e),
        Ok(u0) => if !params_fit(u0, params) {
            (step matches Prepared::Abort(e) && e is UrlParse)
        } else {
            match body {
                Err(fixed_err) => (step matches Prepared::Abort(e) && e matches ApiError::Body {
                    source,
                } && (fixed_err matches Some(be) ==> source == be)),
                Ok(fixed) => (step matches Prepared::Transfer(req, payload) && req.method == method
                    && req.url == url_with_params(u0, params) && content_type_view(
                    req.content_type,
                ) == body_content_type(fixed) && payload@ == body_payload(fixed)),
            }
        },
    }
}

/// Resolve the endpoint's path, append its query parameters, and build the
/// request descriptor and body payload: every strategy-independent step
/// before the transfer.
pub fn prepare<E: Endpoint, C: RestClient>(endpoint: &E, client: &C) -> (step: Prepared<C::Error>)
    ensures
        prepared(
            client.spec_rest_endpoint(endpoint.spec_endpoint()),
            endpoint.spec_method(),
            endpoint.spec_parameters(),
            endpoint.spec_body(),
            step,
        ),
{
    let path = endpoint.endpoint();
    let mut url = match client.rest_endpoint(path.as_str()) {
        Ok(u) => u,
        Err(e) => {
            return Prepared::Abort(e);
        },
    };
    let params = endpoint.parameters();
    if !params.try_add_to_url(&mut url) {
        return Prepared::Abort(ApiError::UrlParse { source: overflow_parse_error() });
    }
    let method = endpoint.method();
    match endpoint.body() {
        Err(source) => Prepared::Abort(ApiError::Body { source }),
        Ok(None) => Prepared::Transfer(Request { method, url, content_type: None }, Vec::new()),
        Ok(Some((mime, data))) => Prepared::Transfer(
            Request { method, url, content_type: Some(mime) },
            data,
        ),
    }
}

/// How a classified raw result relates to the transfer outcome it came from:
/// a transport error propagates unchanged; a success response yields exactly
/// its body bytes; any non-success status yields the unstructured server
/// failure carrying the exact status code and the exact raw bytes, with no
/// further parsing attempted.
pub open spec fn raw_classified<X>(
    outcome: Result<Response, ApiError<X>>,
    r: Result<Vec<u8>, ApiError<X>>,
) -> bool {
    match outcome {
        Err(e) => r == Err::<Vec<u8>, ApiError<X>>(e),
        Ok(rsp) => if rsp.status.spec_is_success() {
            (r matches Ok(v) && v@ == rsp.body@)
        } else {
            (r matches Err(e) && e matches ApiError::ServerService { status, data } && status
                == rsp.status && data@ == rsp.body@)
        },
    }
}

/// Inspect one transfer outcome and finish the raw query, exactly as
/// [`raw_classified`] describes. Shared by the blocking and the suspending
/// execution strategies.
pub fn finish_raw<X>(outcome: Result<Response, ApiError<X>>) -> (r: Result<Vec<u8>, ApiError<X>>)
    ensures
        raw_classified(outcome, r),
{
    match outcome {
        Err(e) => Err(e),
        Ok(rsp) => {
            let status = rsp.status;
            if !status.is_success() {
                Err(ApiError::server_error(status, rsp.body))
            } else {
                Ok(rsp.body)
            }
        },
    }
}

/// How a classified raw result relates to the transfer outcome a client's
/// contract fixes for the request that was sent.
pub open spec fn transfer_classified<X>(
    fixed: Result<(StatusCode, Seq<u8>), ApiError<X>>,
    r: Result<Vec<u8>, ApiError<X>>,
) -> bool {
    match fixed {
        Err(e) => r == Err::<Vec<u8>, ApiError<X>>(e),
        Ok((status, body)) => if status.spec_is_success() {
            (r matches Ok(v) && v@ == body)
        } else {
            (r matches Err(e) && e matches ApiError::ServerService { status: st, data } && st
                == status && data@ == body)
        },
    }
}

/// A trait which represents a query which may be made to a client.
pub trait Query<T, C> where C: Client {
    /// What the produced result satisfies, stated over the endpoint's and the
    /// client's fixed behaviour.
    spec fn query_ensures(&self, client: &C, r: Result<T, ApiError<C::Error>>) -> bool;

    /// Perform the query against the client.
    fn query(&self, client: &C) -> (r: Result<T, ApiError<C::Error>>)
        ensures
            self.query_ensures(client, r),
    ;
}

/// Whether two errors carry the same classification with the same payload.
/// The payload of a body-encoding failure may be minted by the endpoint's own
/// producer at the moment of failure, so two runs of one query agree on it
/// only up to the variant here; where the endpoint fixes the value, the
/// agreement law pins it exactly in a clause of its own.
pub open spec fn api_error_equiv<X>(a: ApiError<X>, b: ApiError<X>) -> bool {
    match (a, b) {
        (ApiError::Client { source: s1 }, ApiError::Client { source: s2 }) => s1 == s2,
        (ApiError::UrlParse { source: s1 }, ApiError::UrlParse { source: s2 }) => s1 == s2,
        (ApiError::Body { .. }, ApiError::Body { .. }) => true,
        (ApiError::Json { source: s1 }, ApiError::Json { source: s2 }) => s1 == s2,
        (ApiError::Server { msg: m1 }, ApiError::Server { msg: m2 }) => m1@ == m2@,
        (
            ApiError::ServerService { status: t1, data: d1 },
            ApiError::ServerService { status: t2, data: d2 },
        ) => t1 == t2 && d1@ == d2@,
        (
            ApiError::DataType { source: s1, typename: n1 },
            ApiError::DataType { source: s2, typename: n2 },
        ) => s1 == s2 && n1@ == n2@,
        _ => false,
    }
}

/// Whether two raw results are equivalent: equal bytes on success, or the
/// same error classification.
pub open spec fn raw_result_equiv<X>(
    a: Result<Vec<u8>, ApiError<X>>,
    b: Result<Vec<u8>, ApiError<X>>,
) -> bool {
    match (a, b) {
        (Ok(v1), Ok(v2)) => v1@ == v2@,
        (Err(e1), Err(e2)) => api_error_equiv(e1, e2),
        _ => false,
    }
}

/// Whether two transfer outcomes are equivalent underlying responses: the
/// same status and body bytes, or equivalent transport errors.
pub open spec fn outcome_equiv<X>(
    a: Result<Response, ApiError<X>>,
    b: Result<Response, ApiError<X>>,
) -> bool {
    match (a, b) {
        (Ok(r1), Ok(r2)) => r1.status == r2.status && r1.body@ == r2.body@,
        (Err(e1), Err(e2)) => api_error_equiv(e1, e2),
        _ => false,
    }
}

/// One execution strategy's whole run: the prepared step either aborts with
/// its classification, or the transfer happens and its outcome is classified.
pub open spec fn executed<X>(
    step: Prepared<X>,
    outcome: Result<Response, ApiError<X>>,
    r: Result<Vec<u8>, ApiError<X>>,
) -> bool {
    match step {
        Prepared::Abort(e) => r == Err::<Vec<u8>, ApiError<X>>(e),
        Prepared::Transfer(_req, _payload) => raw_classified(outcome, r),
    }
}

/// Law: the blocking and the suspending execution strategies classify
/// equivalent underlying responses identically. Two runs prepared from the
/// same fixed endpoint and resolution data, whose transfers (if reached)
/// produced equivalent outcomes, end in equivalent results: equal success
/// bytes, or the same error classification with the same payload. Where the
/// endpoint fixes its body producer's failure value, both runs return exactly
/// that failure. The one premise beyond the runs themselves: the parameters
/// fit the resolved URL under the `url` crate's serialization limit — past
/// it, both runs still abort as a URL-parse failure, but with an error value
/// the contracts do not carry.
pub proof fn lemma_execution_strategies_agree<X>(
    resolve: Result<url::Url, ApiError<X>>,
    method: Method,
    params: Seq<(Seq<char>, Seq<char>)>,
    body: Result<Option<(Seq<char>, Seq<u8>)>, Option<BodyError>>,
    step1: Prepared<X>,
    step2: Prepared<X>,
    outcome1: Result<Response, ApiError<X>>,
    outcome2: Result<Response, ApiError<X>>,
    r1: Result<Vec<u8>, ApiError<X>>,
    r2: Result<Vec<u8>, ApiError<X>>,
)
    requires
        resolve matches Ok(u0) ==> params_fit(u0, params),
        prepared(resolve, method, params, body, step1),
        prepared(resolve, method, params, body, step2),
        step1 is Transfer && step2 is Transfer ==> outcome_equiv(outcome1, outcome2),
        executed(step1, outcome1, r1),
        executed(step2, outcome2, r2),
    ensures
        raw_result_equiv(r1, r2),
        resolve is Ok ==> (body matches Err(Some(be)) ==> r1 == Err::<Vec<u8>, ApiError<X>>(
            ApiError::Body { source: be },
        ) && r2 == r1),
{
}

} // verus!
