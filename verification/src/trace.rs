//! Lightweight distributed-tracing context propagated in frames: a
//! trace id shared along a call tree, the id of the current span, the id
//! of its parent, and whether the trace is sampled.

use vstd::prelude::*;
use crate::session::session::{crockford_text, generate_ulid, ulid_text};

verus! {

/// Tracing context attached to protocol frames.
#[derive(Debug, Clone)]
pub struct TraceContext {
    /// Trace chain id (ULID text); `None` when no trace is present.
    pub trace_id: Option<String>,
    /// Id of the current span (ULID text).
    pub span_id: Option<String>,
    /// Id of the parent span; `None` for a root span.
    pub parent_span_id: Option<String>,
    /// Whether the tracing backend should record this trace.
    pub sampled: bool,
}

impl Default for TraceContext {
    /// No trace, not sampled.
    fn default() -> (r: TraceContext)
        ensures
            r.trace_id is None,
            r.span_id is None,
            r.parent_span_id is None,
            !r.sampled,
    {
        TraceContext { trace_id: None, span_id: None, parent_span_id: None, sampled: false }
    }
}

impl TraceContext {
    /// A new root context: fresh trace and span ids, no parent, sampled.
    pub fn new_root() -> (r: TraceContext)
        ensures
            r.trace_id matches Some(t) && exists|bits: u128| t@ == crockford_text(bits, 26),
            r.span_id matches Some(s) && exists|bits: u128| s@ == crockford_text(bits, 26),
            r.parent_span_id is None,
            r.sampled,
    {
        let trace_bits = generate_ulid();
        let trace_id = ulid_text(trace_bits);
        let span_bits = generate_ulid();
        let span_id = ulid_text(span_bits);
        TraceContext { trace_id: Some(trace_id), span_id: Some(span_id), parent_span_id: None, sampled: true }
    }

    /// A child span of this context: the same trace id and sampling, a
    /// fresh span id, and this context's span as its parent.
    pub fn child(&self) -> (r: TraceContext)
        ensures
            r.trace_id == self.trace_id,
            r.parent_span_id == self.span_id,
            r.sampled == self.sampled,
            r.span_id matches Some(s) && exists|bits: u128| s@ == crockford_text(bits, 26),
    {
        let span_bits = generate_ulid();
        TraceContext {
            trace_id: self.trace_id.clone(),
            span_id: Some(ulid_text(span_bits)),
            parent_span_id: self.span_id.clone(),
            sampled: self.sampled,
        }
    }
}

} // verus!
