//! Middleware composition: a layer turns one handler into another, and a
//! stack pairs a layer with the inner handler it wraps.

use std::sync::Arc;
use vstd::prelude::*;

pub mod logger;

pub use logger::LogLayer;

verus! {

/// A transform from an inner handler to a wrapped handler.
pub trait Layer<S> {
    /// The type of the wrapped handler.
    type Service;

    /// The handler this layer builds around `inner`.
    spec fn layer_spec(&self, inner: S) -> Self::Service;

    /// Wraps `inner`.
    fn layer(&self, inner: S) -> (r: Self::Service)
        ensures
            r == self.layer_spec(inner),
    ;
}

/// One layer paired with the inner handler it wraps; stacks of stacks
/// form a chain whose outermost layer acts first.
pub struct Stack<L, S> {
    pub layer: L,
    pub service: S,
}

impl<L, S> Stack<L, S> {
    /// Pairs a layer with an inner handler.
    pub fn new(layer: L, service: S) -> (r: Stack<L, S>)
        ensures
            r.layer == layer,
            r.service == service,
    {
        Stack { layer, service }
    }
}

/// Relies on `Arc::clone`: the new handle shares the same value.
#[verifier::external_body]
fn arc_dup<S>(a: &Arc<S>) -> (r: Arc<S>)
    ensures
        r == *a,
{
    Arc::clone(a)
}

/// A layer that ignores the handler it is given and substitutes a shared,
/// reference-counted one fixed at construction.
pub struct ArcLayer<S>(pub Arc<S>);

impl<S> ArcLayer<S> {
    /// Fixes `service` as the shared replacement handler.
    pub fn new(service: S) -> (r: ArcLayer<S>)
        ensures
            r.0 == service,
    {
        ArcLayer(Arc::new(service))
    }
}

impl<S> Layer<S> for ArcLayer<S> {
    type Service = Arc<S>;

    /// Whatever the inner handler, the layered result is the shared one.
    open spec fn layer_spec(&self, inner: S) -> Arc<S> {
        self.0
    }

    fn layer(&self, inner: S) -> (r: Arc<S>) {
        arc_dup(&self.0)
    }
}

} // verus!
