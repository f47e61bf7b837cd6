//! Endpoint prelude: re-exports everything needed to implement the
//! [`Endpoint`](crate::endpoint::Endpoint) contract.

pub use crate::client::Client;
pub use crate::endpoint::Endpoint;
pub use crate::error::BodyError;
pub use crate::params::QueryParams;
pub use crate::types::Method;
