//! The declarative endpoint contract: one API call's method, path, query
//! parameters and optional body.

use crate::error::BodyError;
use crate::params::QueryParams;
use crate::types::Method;
use vstd::prelude::*;

verus! {

/// How an endpoint's fixed body description constrains what `body()` actually
/// returned. Payload views are pinned exactly. A failing producer that fixes
/// its error value returns exactly that value; one whose error is minted at
/// the moment of failure (`Err(None)`) only fixes that an encoding error
/// comes back.
pub open spec fn body_agrees(
    fixed: Result<Option<(Seq<char>, Seq<u8>)>, Option<BodyError>>,
    b: Result<Option<(String, Vec<u8>)>, BodyError>,
) -> bool {
    match fixed {
        Ok(None) => b matches Ok(None),
        Ok(Some((mime, data))) => (b matches Ok(Some((m, d))) && m@ == mime && d@ == data),
        Err(None) => b is Err,
        Err(Some(be)) => (b matches Err(e) && e == be),
    }
}

/// A declarative, side-effect-free description of one API call.
///
/// An endpoint is immutable for the duration of one query; the spec functions
/// fix what the accessors return, so a query's outcome can be specified
/// against the endpoint alone.
pub trait Endpoint {
    /// The fixed HTTP method.
    spec fn spec_method(&self) -> Method;

    /// The fixed relative path.
    spec fn spec_endpoint(&self) -> Seq<char>;

    /// The fixed query parameters.
    spec fn spec_parameters(&self) -> Seq<(Seq<char>, Seq<char>)>;

    /// The fixed body description: no body, a (content type, payload) pair,
    /// or a failing producer — with the exact failure value, where the
    /// producer fixes one.
    spec fn spec_body(&self) -> Result<Option<(Seq<char>, Seq<u8>)>, Option<BodyError>>;

    /// The HTTP method to use for the endpoint.
    fn method(&self) -> (m: Method)
        ensures
            m == self.spec_method(),
    ;

    /// The relative path to the endpoint.
    fn endpoint(&self) -> (p: String)
        ensures
            p@ == self.spec_endpoint(),
    ;

    /// The query parameters to attach to the resolved URL.
    fn parameters(&self) -> (q: QueryParams)
        ensures
            q@ == self.spec_parameters(),
    ;

    /// The body for the endpoint, if any: the declared content type and the
    /// payload bytes, or the producer's encoding failure.
    fn body(&self) -> (b: Result<Option<(String, Vec<u8>)>, BodyError>)
        ensures
            body_agrees(self.spec_body(), b),
    ;
}

} // verus!
