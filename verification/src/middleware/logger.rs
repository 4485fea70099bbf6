//! The logging layer: it records the request's method and path as an
//! observable event, then delegates unchanged.
//!
//! The event is appended to the call's trace before the inner handler
//! runs, so the trace shows layer entries outermost first, followed by
//! the effects of the wrapped chain. The outcome of the inner handler is
//! passed through verbatim; the layer never short-circuits and never
//! rewrites a failure.

use crate::error::Error;
use crate::http_request::{Request, RequestView};
use crate::middleware::{Layer, Stack};
use crate::response::{Response, ResponseView};
use crate::service::{trace_view, Event, EventView, Service};
use vstd::prelude::*;

verus! {

/// The log entry owed for a request.
pub open spec fn log_entry(req: RequestView) -> EventView {
    EventView { method: req.method, path: req.path }
}

/// A layer that wraps any handler in a [`LogService`].
pub struct LogLayer;

impl<S> Layer<S> for LogLayer {
    type Service = LogService<S>;

    open spec fn layer_spec(&self, inner: S) -> LogService<S> {
        LogService { inner }
    }

    fn layer(&self, inner: S) -> (r: LogService<S>) {
        LogService { inner }
    }
}

/// A handler that logs the request and then calls the one it wraps.
pub struct LogService<S> {
    pub inner: S,
}

impl<S: Service<Request>> Service<Request> for LogService<S> {
    /// The outcome is the inner handler's, verbatim.
    open spec fn call_spec(&self, req: RequestView) -> Result<ResponseView, Error> {
        self.inner.call_spec(req)
    }

    /// One log entry, then the inner handler's effects.
    open spec fn effects_spec(&self, req: RequestView) -> Seq<EventView> {
        seq![log_entry(req)] + self.inner.effects_spec(req)
    }

    fn call(&self, req: Request, trace: &mut Vec<Event>) -> (r: Result<Response, Error>) {
        let ghost t0 = trace@;
        let ev = Event { method: req.method, path: req.path.clone() };
        trace.push(ev);
        proof {
            assert(trace_view(trace@) =~= trace_view(t0) + seq![log_entry(req@)]);
        }
        let r = self.inner.call(req, trace);
        proof {
            assert(trace_view(trace@) =~= trace_view(t0) + self.effects_spec(req@));
        }
        r
    }
}

/// A stack whose layer is the logging layer behaves as the logging
/// service built around its inner handler: the layer application is
/// stateless, so it is unfolded here rather than rebuilt on every call.
impl<S: Service<Request>> Service<Request> for Stack<LogLayer, S> {
    /// The outcome is the inner handler's, verbatim.
    open spec fn call_spec(&self, req: RequestView) -> Result<ResponseView, Error> {
        self.service.call_spec(req)
    }

    /// One log entry, then the inner handler's effects.
    open spec fn effects_spec(&self, req: RequestView) -> Seq<EventView> {
        seq![log_entry(req)] + self.service.effects_spec(req)
    }

    fn call(&self, req: Request, trace: &mut Vec<Event>) -> (r: Result<Response, Error>) {
        let ghost t0 = trace@;
        let ev = Event { method: req.method, path: req.path.clone() };
        trace.push(ev);
        proof {
            assert(trace_view(trace@) =~= trace_view(t0) + seq![log_entry(req@)]);
        }
        let r = self.service.call(req, trace);
        proof {
            assert(trace_view(trace@) =~= trace_view(t0) + self.effects_spec(req@));
        }
        r
    }
}

/// Middleware ordering: with an outer and an inner logging layer wrapped
/// around a handler, one call leaves the outer layer's entry, then the
/// inner layer's entry, then the handler's own effects, in that order,
/// and returns the handler's outcome unchanged.
pub proof fn lemma_middleware_order<S: Service<Request>>(
    stack: Stack<LogLayer, Stack<LogLayer, S>>,
    req: RequestView,
)
    ensures
        stack.call_spec(req) == stack.service.service.call_spec(req),
        stack.effects_spec(req) == seq![log_entry(req), log_entry(req)]
            + stack.service.service.effects_spec(req),
{
    assert(seq![log_entry(req)] + (seq![log_entry(req)]
        + stack.service.service.effects_spec(req)) =~= seq![log_entry(req), log_entry(req)]
        + stack.service.service.effects_spec(req));
}

} // verus!
