//! The transaction abstraction: a handler is one operation, `call`, from a
//! request to a response or a typed failure.
//!
//! A call also appends its observable side effects (log entries) to an
//! explicit trace, so that the order of effects is part of the contract
//! rather than hidden in an output stream. A runner may print the trace.

use crate::error::Error;
use crate::http_request::{Method, Request};
use crate::response::{outcome_view, Response, ResponseView};
use vstd::prelude::*;

verus! {

/// One observable side effect: a request was seen by the logging layer.
pub struct Event {
    pub method: Method,
    pub path: String,
}

/// The mathematical value of an event.
pub struct EventView {
    pub method: Method,
    pub path: Seq<char>,
}

impl View for Event {
    type V = EventView;

    open spec fn view(&self) -> EventView {
        EventView { method: self.method, path: self.path@ }
    }
}

/// The value of a trace: each event's value, oldest first.
pub open spec fn trace_view(t: Seq<Event>) -> Seq<EventView> {
    t.map_values(|e: Event| e@)
}

/// The uniform transaction contract. A service maps a request value to an
/// outcome value (`call_spec`) and to the effects it emits (`effects_spec`);
/// `call` realizes both: it returns the outcome and appends exactly those
/// effects to the trace.
pub trait Service<Req: View>: Sized {
    /// The outcome of serving `req`.
    spec fn call_spec(&self, req: Req::V) -> Result<ResponseView, Error>;

    /// The observable effects emitted while serving `req`, in order.
    spec fn effects_spec(&self, req: Req::V) -> Seq<EventView>;

    /// Serves one request.
    fn call(&self, req: Req, trace: &mut Vec<Event>) -> (r: Result<Response, Error>)
        ensures
            outcome_view(r) == self.call_spec(req@),
            trace_view(final(trace)@) == trace_view(old(trace)@) + self.effects_spec(req@),
    ;
}

/// Serving is stateless: a service borrowed immutably maps equal request
/// values to equal outcomes, so structurally identical requests served one
/// after the other get independently correct, identical answers.
pub proof fn lemma_service_stateless<Req: View, S: Service<Req>>(
    s: &S,
    q: Req::V,
    r1: Result<ResponseView, Error>,
    r2: Result<ResponseView, Error>,
)
    requires
        r1 == s.call_spec(q),
        r2 == s.call_spec(q),
    ensures
        r1 == r2,
{
}

/// A service made from a plain function value.
#[derive(Clone, Copy)]
pub struct ServiceFn<F> {
    f: F,
}

impl<F> ServiceFn<F> {
    /// The wrapped function value.
    pub closed spec fn func(&self) -> F {
        self.f
    }
}

/// Wraps a function value as a service-shaped callable.
pub fn service_fn<F: Fn(Request) -> Result<Response, Error>>(f: F) -> (r: ServiceFn<F>)
    ensures
        r.func() == f,
{
    ServiceFn { f }
}

impl<F: Fn(Request) -> Result<Response, Error>> ServiceFn<F> {
    /// Calls the wrapped function; its own contract carries over.
    pub fn call(&self, req: Request) -> (r: Result<Response, Error>)
        requires
            call_requires(self.func(), (req,)),
        ensures
            call_ensures(self.func(), (req,), r),
    {
        (self.f)(req)
    }
}

} // verus!
