//! The connection runtime's decision logic: the per-request transaction
//! with its uniform fallback, the server configuration, and the
//! per-connection lifecycle.
//!
//! The runner outside this crate binds the listener, accepts connections,
//! performs the TLS handshake when one is configured, and parses HTTP/1.1
//! framing; for every parsed request it calls [`Server::handle`] and
//! writes the returned reply.

use crate::error::Error;
use crate::http_request::Request;
use crate::response::{outcome_view, Response, ResponseView, STATUS_NOT_FOUND};
use crate::service::{trace_view, Event, Service};
use vstd::prelude::*;
use vstd::string::StrSliceExecFns;
use vstd::utf8::encode_utf8;

verus! {

/// The one fallback reply: status 404 with the literal body `Not Found`
/// and no distinguishing headers.
pub open spec fn fallback_view() -> ResponseView {
    ResponseView {
        status: STATUS_NOT_FOUND,
        headers: Seq::<(Seq<char>, Seq<char>)>::empty(),
        body: encode_utf8("Not Found"@),
    }
}

/// The reply written for a transaction outcome: the response itself on
/// success, the fallback on a failure of any kind. The kind is discarded
/// here, so transport faults, route misses and extraction failures are
/// indistinguishable to the client.
pub open spec fn completed_view(outcome: Result<ResponseView, Error>) -> ResponseView {
    match outcome {
        Ok(v) => v,
        Err(_) => fallback_view(),
    }
}

/// Builds the fallback reply.
pub fn not_found_response() -> (r: Response)
    ensures
        r@ == fallback_view(),
{
    let body = "Not Found".as_bytes_vec();
    Response::new(body).status(STATUS_NOT_FOUND)
}

/// Converts a transaction outcome into the reply actually written.
pub fn complete(outcome: Result<Response, Error>) -> (r: Response)
    ensures
        r@ == completed_view(outcome_view(outcome)),
{
    match outcome {
        Ok(resp) => resp,
        Err(_) => not_found_response(),
    }
}

/// Every failure, whatever its kind — a route miss and a failed body
/// extraction alike — is answered with one and the same fallback reply.
pub proof fn lemma_failures_conflated(e1: Error, e2: Error)
    ensures
        completed_view(Err(e1)) == completed_view(Err(e2)),
        completed_view(Err(e1)) == fallback_view(),
{
}

/// Paths to a certificate chain and a PKCS8 private key, both PEM.
pub struct TlsConfig {
    pub cert_path: String,
    pub key_path: String,
}

/// A server: a composed top-level handler, a bind address, and an
/// optional TLS credential location, fixed before serving begins.
pub struct Server<S> {
    pub service: S,
    pub addr: String,
    pub tls_config: Option<TlsConfig>,
}

impl<S: Service<Request>> Server<S> {
    /// A plaintext server for `service` on `addr`.
    pub fn new(service: S, addr: String) -> (r: Server<S>)
        ensures
            r.service == service,
            r.addr == addr,
            r.tls_config is None,
    {
        Server { service, addr, tls_config: None }
    }

    /// Configures TLS termination from the two credential files.
    pub fn tls(self, cert_path: String, key_path: String) -> (r: Server<S>)
        ensures
            r.service == self.service,
            r.addr == self.addr,
            match r.tls_config {
                Some(c) => c.cert_path == cert_path && c.key_path == key_path,
                None => false,
            },
    {
        Server { tls_config: Some(TlsConfig { cert_path, key_path }), ..self }
    }

    /// One full transaction: dispatch the request through the composed
    /// handler and convert any failure into the fallback reply.
    pub fn handle(&self, req: Request, trace: &mut Vec<Event>) -> (r: Response)
        ensures
            r@ == completed_view(self.service.call_spec(req@)),
            trace_view(final(trace)@) == trace_view(old(trace)@) + self.service.effects_spec(
                req@,
            ),
    {
        let outcome = self.service.call(req, trace);
        complete(outcome)
    }
}

/// Where one connection stands in its lifecycle.
#[derive(Clone, Copy, Debug, PartialEq, Eq, Structural)]
pub enum ConnState {
    /// Just accepted; nothing exchanged yet.
    Accepted,
    /// Performing the TLS handshake.
    Securing,
    /// Serving transactions, one at a time.
    Serving,
    /// Gone; nothing more happens on it.
    Closed,
}

/// What the runner observed on one connection.
#[derive(Clone, Copy, Debug, PartialEq, Eq, Structural)]
pub enum ConnEvent {
    /// Handling begins.
    Start,
    /// The TLS handshake completed.
    Secured,
    /// The TLS handshake failed; only this connection is abandoned.
    SecureFailed,
    /// One request was served and its reply written.
    RequestServed,
    /// The peer disconnected.
    PeerClosed,
    /// The HTTP framing failed.
    ProtocolFailed,
}

/// The next state of a connection: a fresh connection is secured first
/// exactly when TLS is configured; serving continues request after
/// request until the peer goes away or the protocol fails; any
/// out-of-place event closes the connection.
pub open spec fn conn_step_spec(state: ConnState, event: ConnEvent, tls: bool) -> ConnState {
    match (state, event) {
        (ConnState::Accepted, ConnEvent::Start) => if tls {
            ConnState::Securing
        } else {
            ConnState::Serving
        },
        (ConnState::Securing, ConnEvent::Secured) => ConnState::Serving,
        (ConnState::Serving, ConnEvent::RequestServed) => ConnState::Serving,
        _ => ConnState::Closed,
    }
}

/// Advances one connection's state by one observed event.
pub fn conn_step(state: ConnState, event: ConnEvent, tls: bool) -> (r: ConnState)
    ensures
        r == conn_step_spec(state, event, tls),
{
    match (state, event) {
        (ConnState::Accepted, ConnEvent::Start) => if tls {
            ConnState::Securing
        } else {
            ConnState::Serving
        },
        (ConnState::Securing, ConnEvent::Secured) => ConnState::Serving,
        (ConnState::Serving, ConnEvent::RequestServed) => ConnState::Serving,
        _ => ConnState::Closed,
    }
}

/// A closed connection stays closed, whatever else is observed.
pub proof fn lemma_closed_is_final(event: ConnEvent, tls: bool)
    ensures
        conn_step_spec(ConnState::Closed, event, tls) == ConnState::Closed,
{
}

} // verus!
