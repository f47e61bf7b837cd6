//! In-memory doubles of the client and endpoint contracts, for exercising
//! queries without a network.

use crate::client::{Client, RestClient};
use crate::endpoint::Endpoint;
use crate::error::{ApiError, BodyError};
use crate::params::QueryParams;
use crate::types::{Method, Request, Response, StatusCode};
use vstd::prelude::*;

verus! {

/// Relies on `serde_urlencoded::ser::Error`'s derived `Clone`: the clone
/// equals the original.
pub assume_specification[ <serde_urlencoded::ser::Error as Clone>::clone ](
    e: &serde_urlencoded::ser::Error,
) -> (r: serde_urlencoded::ser::Error)
    ensures
        r == *e,
;

/// Copy a byte vector.
fn clone_bytes(v: &Vec<u8>) -> (r: Vec<u8>)
    ensures
        r@ == v@,
{
    let mut r: Vec<u8> = Vec::new();
    let mut i: usize = 0;
    while i < v.len()
        invariant
            i <= v.len(),
            r@.len() == i,
            forall|j: int| 0 <= j < i ==> r@[j] == v@[j],
        decreases v.len() - i,
    {
        r.push(v[i]);
        i = i + 1;
    }
    proof {
        assert(r@ =~= v@);
    }
    r
}

/// The transport error of the in-memory client.
#[derive(Clone, Copy, PartialEq, Eq, Structural, Debug)]
pub struct MockError {
    pub code: u64,
}

/// An in-memory client: it resolves every path to one fixed URL, and answers
/// every transfer with one canned response — or fails every transfer with one
/// fixed transport error.
pub struct MockClient {
    /// The URL every path resolves to.
    pub url: url::Url,
    /// When set, every resolution fails with this parse error instead.
    pub reject: Option<url::ParseError>,
    /// The status code of the canned response.
    pub status: u16,
    /// The body bytes of the canned response.
    pub body: Vec<u8>,
    /// When set, every transfer fails with this transport error instead.
    pub fail: Option<MockError>,
}

impl RestClient for MockClient {
    type Error = MockError;

    open spec fn spec_rest_endpoint(&self, endpoint: Seq<char>) -> Result<
        url::Url,
        ApiError<MockError>,
    > {
        match self.reject {
            Some(e) => Err(ApiError::UrlParse { source: e }),
            None => Ok(self.url),
        }
    }

    fn rest_endpoint(&self, _endpoint: &str) -> (r: Result<url::Url, ApiError<MockError>>) {
        match self.reject {
            Some(e) => Err(ApiError::UrlParse { source: e }),
            None => Ok(self.url.clone()),
        }
    }
}

impl Client for MockClient {
    open spec fn spec_rest(
        &self,
        method: Method,
        url: url::Url,
        content_type: Option<Seq<char>>,
        body: Seq<u8>,
    ) -> Result<(StatusCode, Seq<u8>), ApiError<MockError>> {
        match self.fail {
            Some(e) => Err(ApiError::Client { source: e }),
            None => Ok((StatusCode { code: self.status }, self.body@)),
        }
    }

    fn rest(&self, _request: Request, _body: Vec<u8>) -> (r: Result<Response, ApiError<MockError>>) {
        match self.fail {
            Some(e) => Err(ApiError::client(e)),
            None => Ok(
                Response { status: StatusCode { code: self.status }, body: clone_bytes(&self.body) },
            ),
        }
    }
}

/// What an in-memory endpoint declares as its body.
pub enum MockBody {
    /// No body: the payload stays empty and no `Content-Type` is attached.
    Empty,
    /// A declared content type with payload bytes.
    Payload { mime: String, data: Vec<u8> },
    /// A producer that fails to encode, reporting this failure.
    FailsToEncode { error: serde_urlencoded::ser::Error },
}

/// An in-memory endpoint with a fixed method, path and body declaration, and
/// no query parameters.
pub struct MockEndpoint {
    /// The fixed HTTP method.
    pub method: Method,
    /// The fixed relative path.
    pub path: String,
    /// The fixed body declaration.
    pub body: MockBody,
}

impl Endpoint for MockEndpoint {
    open spec fn spec_method(&self) -> Method {
        self.method
    }

    open spec fn spec_endpoint(&self) -> Seq<char> {
        self.path@
    }

    open spec fn spec_parameters(&self) -> Seq<(Seq<char>, Seq<char>)> {
        Seq::empty()
    }

    open spec fn spec_body(&self) -> Result<Option<(Seq<char>, Seq<u8>)>, Option<BodyError>> {
        match self.body {
            MockBody::Empty => Ok(None),
            MockBody::Payload { mime, data } => Ok(Some((mime@, data@))),
            MockBody::FailsToEncode { error } => Err(
                Some(BodyError::UrlEncoded { source: error }),
            ),
        }
    }

    fn method(&self) -> (m: Method) {
        self.method
    }

    fn endpoint(&self) -> (p: String) {
        self.path.clone()
    }

    fn parameters(&self) -> (q: QueryParams) {
        QueryParams::new()
    }

    fn body(&self) -> (b: Result<Option<(String, Vec<u8>)>, BodyError>) {
        match &self.body {
            MockBody::Empty => Ok(None),
            MockBody::Payload { mime, data } => Ok(Some((mime.clone(), clone_bytes(data)))),
            MockBody::FailsToEncode { error } => Err(
                BodyError::UrlEncoded { source: error.clone() },
            ),
        }
    }
}

} // verus!
