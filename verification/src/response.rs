//! The response model: a status code, a header list in insertion order,
//! and a fully buffered body.

use crate::error::Error;
use crate::http_request::{
    header_lookup, headers_remove, headers_view, lemma_header_lookup_push_fresh,
    lemma_header_lookup_push_other, lemma_headers_remove_finds_nothing,
    lemma_headers_remove_keeps_others, lemma_headers_remove_push, str_eq,
};
use vstd::prelude::*;

verus! {

/// The status of a fresh response.
pub const STATUS_OK: u16 = 200;

/// The status of the handshake reply that switches protocols.
pub const STATUS_SWITCHING_PROTOCOLS: u16 = 101;

/// The status of the uniform fallback response.
pub const STATUS_NOT_FOUND: u16 = 404;

/// An outgoing response. Once handed to the runtime it is written as is.
pub struct Response {
    pub status: u16,
    pub headers: Vec<(String, String)>,
    pub body: Vec<u8>,
}

/// The mathematical value of a response.
pub struct ResponseView {
    pub status: u16,
    pub headers: Seq<(Seq<char>, Seq<char>)>,
    pub body: Seq<u8>,
}

impl View for Response {
    type V = ResponseView;

    open spec fn view(&self) -> ResponseView {
        ResponseView {
            status: self.status,
            headers: headers_view(self.headers@),
            body: self.body@,
        }
    }
}

/// The value of a transaction's outcome: the response's value on success,
/// the failure kind otherwise.
pub open spec fn outcome_view(r: Result<Response, Error>) -> Result<ResponseView, Error> {
    match r {
        Ok(resp) => Ok(resp@),
        Err(e) => Err(e),
    }
}

impl Response {
    /// A successful response carrying `body`, with no headers yet.
    pub fn new(body: Vec<u8>) -> (r: Response)
        ensures
            r@.status == STATUS_OK,
            r@.headers == Seq::<(Seq<char>, Seq<char>)>::empty(),
            r@.body == body@,
    {
        let r = Response { status: STATUS_OK, headers: Vec::new(), body };
        proof {
            assert(headers_view(Seq::<(String, String)>::empty()) =~= Seq::<(
                Seq<char>,
                Seq<char>,
            )>::empty());
        }
        r
    }

    /// Replaces the status code.
    pub fn status(self, status: u16) -> (r: Response)
        ensures
            r@.status == status,
            r@.headers == self@.headers,
            r@.body == self@.body,
    {
        Response { status, ..self }
    }

    /// Sets one header: the header list acts as a map, so any entries
    /// already carrying `key` are removed and `(key, value)` is appended.
    /// Looking `key` up afterwards finds `value`; every other name is
    /// untouched.
    #[verifier::loop_isolation(false)]
    pub fn header(self, key: &str, value: &str) -> (r: Response)
        ensures
            r@.status == self@.status,
            r@.body == self@.body,
            r@.headers == headers_remove(self@.headers, key@).push((key@, value@)),
            header_lookup(r@.headers, key@) == Some(value@),
            forall|n: Seq<char>|
                n != key@ ==> #[trigger] header_lookup(r@.headers, n) == header_lookup(
                    self@.headers,
                    n,
                ),
    {
        let ghost hv = self@.headers;
        let n = self.headers.len();
        let mut headers: Vec<(String, String)> = Vec::new();
        proof {
            assert(hv.take(0) =~= Seq::<(Seq<char>, Seq<char>)>::empty());
            assert(headers_remove(Seq::<(Seq<char>, Seq<char>)>::empty(), key@) =~= Seq::<(
                Seq<char>,
                Seq<char>,
            )>::empty());
            assert(headers_view(Seq::<(String, String)>::empty()) =~= Seq::<(
                Seq<char>,
                Seq<char>,
            )>::empty());
        }
        let mut i: usize = 0;
        while i < n
            invariant
                n == self.headers@.len(),
                i <= n,
                headers_view(headers@) == headers_remove(hv.take(i as int), key@),
            decreases n - i,
        {
            let ghost prev = headers@;
            if !str_eq(self.headers[i].0.as_str(), key) {
                let pair = (self.headers[i].0.clone(), self.headers[i].1.clone());
                headers.push(pair);
            }
            proof {
                assert(hv[i as int] == (self.headers@[i as int].0@, self.headers@[i as int].1@));
                assert(hv.take(i as int + 1) =~= hv.take(i as int).push(hv[i as int]));
                lemma_headers_remove_push(hv.take(i as int), hv[i as int], key@);
                if self.headers@[i as int].0@ != key@ {
                    assert(headers_view(headers@) =~= headers_view(prev).push(hv[i as int]));
                }
            }
            i += 1;
        }
        proof {
            assert(hv.take(n as int) =~= hv);
        }
        headers.push((key.to_owned(), value.to_owned()));
        proof {
            assert(headers_view(headers@) =~= headers_remove(hv, key@).push((key@, value@)));
            lemma_headers_remove_finds_nothing(hv, key@);
            lemma_header_lookup_push_fresh(headers_remove(hv, key@), key@, value@);
            assert forall|nm: Seq<char>| nm != key@ implies #[trigger] header_lookup(
                headers_view(headers@),
                nm,
            ) == header_lookup(hv, nm) by {
                lemma_header_lookup_push_other(headers_remove(hv, key@), (key@, value@), nm);
                lemma_headers_remove_keeps_others(hv, key@, nm);
            }
        }
        Response { status: self.status, headers, body: self.body }
    }
}

} // verus!
