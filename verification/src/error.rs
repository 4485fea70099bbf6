//! Failure kinds produced and consumed by the dispatch pipeline.
//!
//! The kinds are kept distinct internally, but the connection runtime
//! collapses every failure into one uniform not-found response, so a
//! client cannot tell them apart.

use vstd::prelude::*;

verus! {

/// A failure signal raised while handling one request.
#[derive(Clone, Copy, Debug, PartialEq, Eq, Structural)]
pub enum Error {
    /// The HTTP transport reported a failure.
    Hyper,
    /// An HTTP value (status, header) could not be built.
    Http,
    /// An I/O fault outside the HTTP layer.
    Io,
    /// No route matched, or a handler could not extract its argument.
    NotFound,
}

impl Error {
    /// True exactly for the route-miss / extraction-failure kind.
    pub fn is_not_found(&self) -> (r: bool)
        ensures
            r == (*self == Error::NotFound),
    {
        match self {
            Error::NotFound => true,
            _ => false,
        }
    }
}

} // verus!
