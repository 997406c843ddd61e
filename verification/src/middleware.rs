//! The middleware chain: ordered wrappers around "process one validated
//! request".  A middleware registered first is outermost: it observes every
//! request before any inner layer and the response entry after every inner
//! layer, and may short-circuit dispatch entirely, in which case its own
//! response stands and the registered capability is never invoked.

use vstd::prelude::*;
use crate::calls::Metadata;
use crate::types::{Call, Output};

verus! {

/// What a middleware decides about one request.
pub enum MiddlewareAction {
    /// Hand the request on to the next layer (or, at the innermost point,
    /// to the registry lookup and invocation).
    Proceed,
    /// Short-circuit: this response entry stands, nothing inner runs.
    /// For a notification the entry is discarded — a request without an id
    /// never produces a response entry — but inner layers still do not run.
    Respond(Output),
}

/// A composable wrapper around request processing, for cross-cutting
/// behaviour (auth, timing, rate limiting) layered without touching the
/// registered capabilities.
pub trait Middleware<M: Metadata>: Send + Sync + 'static {
    /// Observe one validated request before dispatch.
    fn on_call(&self, call: &Call, meta: &M) -> MiddlewareAction;

    /// Observe — and possibly rewrite — the response entry owed for a call,
    /// after every inner layer produced it: the innermost middleware sees it
    /// first, the one registered first (outermost) last.  Entries owed for
    /// notifications are discarded before this hook; the default leaves the
    /// entry unchanged.
    fn on_output(&self, output: Output, _meta: &M) -> Output {
        output
    }
}

/// The default chain: a no-op passthrough.
pub struct Noop;

impl<M: Metadata> Middleware<M> for Noop {
    fn on_call(&self, _call: &Call, _meta: &M) -> MiddlewareAction {
        MiddlewareAction::Proceed
    }
}

} // verus!
