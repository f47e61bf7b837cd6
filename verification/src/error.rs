//! The closed failure taxonomy: every failure this layer can produce has
//! exactly one variant here, generic over the pluggable transport error type.

use crate::types::StatusCode;
use vstd::prelude::*;

verus! {

/// `url::ParseError` carried opaquely as the payload of a URL-parse failure.
#[verifier::external_type_specification]
#[verifier::external_body]
pub struct ExParseError(url::ParseError);

/// `serde_json::Error` carried opaquely as the payload of a JSON failure.
#[verifier::external_type_specification]
#[verifier::external_body]
pub struct ExJsonError(serde_json::Error);

/// `serde_urlencoded::ser::Error` carried opaquely as the payload of a
/// form-encoding failure.
#[verifier::external_type_specification]
#[verifier::external_body]
pub struct ExFormError(serde_urlencoded::ser::Error);

/// Errors which may occur when creating form data.
#[non_exhaustive]
pub enum BodyError {
    /// Body data could not be serialized from form parameters.
    UrlEncoded { source: serde_urlencoded::ser::Error },
}

impl From<serde_urlencoded::ser::Error> for BodyError {
    fn from(source: serde_urlencoded::ser::Error) -> Self {
        BodyError::UrlEncoded { source }
    }
}

impl vstd::std_specs::convert::FromSpecImpl<serde_urlencoded::ser::Error> for BodyError {
    open spec fn obeys_from_spec() -> bool {
        true
    }

    open spec fn from_spec(source: serde_urlencoded::ser::Error) -> Self {
        BodyError::UrlEncoded { source }
    }
}

/// Errors which may occur when using API endpoints.
#[non_exhaustive]
#[allow(inconsistent_fields)]
pub enum ApiError<E> {
    /// The client encountered an error.
    Client { source: E },
    /// The URL failed to parse.
    UrlParse { source: url::ParseError },
    /// Body data could not be created.
    Body { source: BodyError },
    /// JSON deserialization of an API response failed.
    Json { source: serde_json::Error },
    /// The server returned a structured error message.
    Server { msg: String },
    /// The server returned an error without JSON information: the exact
    /// status code and the exact raw response bytes, never reinterpreted.
    ServerService { status: StatusCode, data: Vec<u8> },
    /// An expected data type could not be parsed from JSON; the static name
    /// of that type rides along purely for diagnostics.
    DataType { source: serde_json::Error, typename: &'static str },
}

impl<E> ApiError<E> {
    /// Wrap a transport error in its taxonomy variant.
    pub fn client(source: E) -> (r: Self)
        ensures
            r == (ApiError::Client { source }),
    {
        ApiError::Client { source }
    }

    /// Adapt the transport-error payload through `f`, leaving every other
    /// variant unchanged. This is the one transform ever applied to an
    /// already-produced error: it lets one client implementation wrap another
    /// while preserving full error fidelity.
    pub fn map_client<F, W>(self, f: F) -> (r: ApiError<W>) where F: FnOnce(E) -> W
        requires
            self matches ApiError::Client { source } ==> call_requires(f, (source,)),
        ensures
            match self {
                ApiError::Client { source } => (r matches ApiError::Client { source: w }
                    && call_ensures(f, (source,), w)),
                ApiError::UrlParse { source } => r == ApiError::<W>::UrlParse { source },
                ApiError::Body { source } => r == ApiError::<W>::Body { source },
                ApiError::Json { source } => r == ApiError::<W>::Json { source },
                ApiError::Server { msg } => r == ApiError::<W>::Server { msg },
                ApiError::ServerService { status, data } => (r == ApiError::<W>::ServerService {
                    status,
                    data,
                }),
                ApiError::DataType { source, typename } => (r == ApiError::<W>::DataType {
                    source,
                    typename,
                }),
            },
    {
        match self {
            Self::Client { source } => ApiError::client(f(source)),
            Self::UrlParse { source } => ApiError::UrlParse { source },
            Self::Body { source } => ApiError::Body { source },
            Self::Json { source } => ApiError::Json { source },
            Self::Server { msg } => ApiError::Server { msg },
            Self::ServerService { status, data } => ApiError::ServerService { status, data },
            Self::DataType { source, typename } => ApiError::DataType { source, typename },
        }
    }

    /// Build the unstructured server failure carrying the exact status code
    /// and the exact raw body bytes.
    pub(crate) fn server_error(status: StatusCode, data: Vec<u8>) -> (r: Self)
        ensures
            r == (ApiError::<E>::ServerService { status, data }),
    {
        ApiError::ServerService { status, data }
    }

    /// Classify a JSON decode failure for an expected data type, tagging the
    /// static name of the type that failed to decode.
    pub fn data_type(source: serde_json::Error, typename: &'static str) -> (r: Self)
        ensures
            r == (ApiError::<E>::DataType { source, typename }),
    {
        ApiError::DataType { source, typename }
    }
}

impl<E> From<url::ParseError> for ApiError<E> {
    fn from(source: url::ParseError) -> Self {
        ApiError::UrlParse { source }
    }
}

impl<E> vstd::std_specs::convert::FromSpecImpl<url::ParseError> for ApiError<E> {
    open spec fn obeys_from_spec() -> bool {
        true
    }

    open spec fn from_spec(source: url::ParseError) -> Self {
        ApiError::UrlParse { source }
    }
}

impl<E> From<BodyError> for ApiError<E> {
    fn from(source: BodyError) -> Self {
        ApiError::Body { source }
    }
}

impl<E> vstd::std_specs::convert::FromSpecImpl<BodyError> for ApiError<E> {
    open spec fn obeys_from_spec() -> bool {
        true
    }

    open spec fn from_spec(source: BodyError) -> Self {
        ApiError::Body { source }
    }
}

impl<E> From<serde_json::Error> for ApiError<E> {
    fn from(source: serde_json::Error) -> Self {
        ApiError::Json { source }
    }
}

impl<E> vstd::std_specs::convert::FromSpecImpl<serde_json::Error> for ApiError<E> {
    open spec fn obeys_from_spec() -> bool {
        true
    }

    open spec fn from_spec(source: serde_json::Error) -> Self {
        ApiError::Json { source }
    }
}

} // verus!
