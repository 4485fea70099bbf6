//! Body extraction: turning a buffered request body into a typed value.
//!
//! An extraction failure is reported as the not-found kind, the same kind
//! an unmatched route produces; the runtime therefore answers both with
//! the one fallback response. That conflation is recorded behaviour, kept
//! as is.

use crate::error::Error;
use crate::http_request::RequestParts;
use vstd::prelude::*;
use vstd::utf8::{decode_utf8, valid_utf8};

verus! {

/// A type that can extract itself from a request body.
pub trait FromBody: Sized + View {
    /// The value owed for a body, or the failure kind owed for it.
    spec fn from_body_spec(body: Seq<u8>) -> Result<Self::V, Error>;

    /// Extracts the value from a buffered body.
    fn from_body(body: Vec<u8>) -> (r: Result<Self, Error>)
        ensures
            match r {
                Ok(v) => Self::from_body_spec(body@) == Ok::<Self::V, Error>(v@),
                Err(e) => Self::from_body_spec(body@) == Err::<Self::V, Error>(e),
            },
    ;
}

/// Relies on `String::from_utf8`: it succeeds exactly on valid UTF-8 and
/// returns its decoding.
#[verifier::external_body]
fn utf8_to_string(bytes: Vec<u8>) -> (r: Option<String>)
    ensures
        match r {
            Some(s) => valid_utf8(bytes@) && s@ == decode_utf8(bytes@),
            None => !valid_utf8(bytes@),
        },
{
    String::from_utf8(bytes).ok()
}

impl FromBody for String {
    /// A body decodes to text exactly when it is valid UTF-8; otherwise
    /// extraction fails with the not-found kind.
    open spec fn from_body_spec(body: Seq<u8>) -> Result<Seq<char>, Error> {
        if valid_utf8(body) {
            Ok(decode_utf8(body))
        } else {
            Err(Error::NotFound)
        }
    }

    fn from_body(body: Vec<u8>) -> (r: Result<String, Error>) {
        match utf8_to_string(body) {
            Some(s) => Ok(s),
            None => Err(Error::NotFound),
        }
    }
}

/// A type that extracts itself from a split request: the head is offered
/// for inspection, the body for consumption.
pub trait FromRequest: Sized + View {
    /// The value owed for a split request, or the failure kind owed.
    spec fn from_request_spec(parts: RequestParts, body: Seq<u8>) -> Result<Self::V, Error>;

    /// Extracts the value from the head and the buffered body.
    fn from_request(parts: &RequestParts, body: Vec<u8>) -> (r: Result<Self, Error>)
        ensures
            match r {
                Ok(v) => Self::from_request_spec(*parts, body@) == Ok::<Self::V, Error>(v@),
                Err(e) => Self::from_request_spec(*parts, body@) == Err::<Self::V, Error>(e),
            },
    ;
}

impl FromRequest for String {
    /// Text extraction ignores the head entirely.
    open spec fn from_request_spec(parts: RequestParts, body: Seq<u8>) -> Result<Seq<char>, Error> {
        <String as FromBody>::from_body_spec(body)
    }

    fn from_request(_parts: &RequestParts, body: Vec<u8>) -> (r: Result<String, Error>) {
        <String as FromBody>::from_body(body)
    }
}

/// A typed body decoded from JSON. The decoding itself is driven by the
/// serialization framework's trait impls, which stay outside the verified
/// library; a runner extracts the value and hands it over wrapped.
pub struct Json<T>(pub T);

} // verus!
