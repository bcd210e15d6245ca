use vstd::prelude::*;

verus! {

/// The correlation keys the tracing backend assigns to an active span. A
/// context is valid exactly when both identifiers are nonzero.
#[derive(Clone, Copy, PartialEq, Eq, Structural, Debug)]
pub struct TraceContext {
    pub trace_id: u128,
    pub span_id: u64,
}

impl TraceContext {
    pub open spec fn spec_is_valid(&self) -> bool {
        self.trace_id != 0 && self.span_id != 0
    }

    pub fn is_valid(&self) -> (r: bool)
        ensures
            r == self.spec_is_valid(),
    {
        self.trace_id != 0 && self.span_id != 0
    }
}

/// One request's span: a named, timed unit of work with the request
/// attributes, two identifier fields that start empty, and a closed flag
/// that can be set exactly once.
pub struct HttpSpan {
    pub name: String,
    pub method: String,
    pub uri: String,
    pub route: String,
    pub trace_id: Option<u128>,
    pub span_id: Option<u64>,
    pub closed: bool,
}

impl HttpSpan {
    /// Fills the two reserved identifier fields from the context the backend
    /// reported, but only when that context is valid; an invalid context
    /// leaves them untouched rather than failing. Once filled, the
    /// identifiers never change again: every later operation on the span
    /// keeps them as they are.
    pub fn record_context(&mut self, ctx: TraceContext)
        requires
            !old(self).closed,
        ensures
            final(self).name == old(self).name,
            final(self).method == old(self).method,
            final(self).uri == old(self).uri,
            final(self).route == old(self).route,
            !final(self).closed,
            ctx.spec_is_valid() ==> final(self).trace_id == Some(ctx.trace_id)
                && final(self).span_id == Some(ctx.span_id),
            !ctx.spec_is_valid() ==> final(self).trace_id == old(self).trace_id
                && final(self).span_id == old(self).span_id,
    {
        if ctx.is_valid() {
            self.trace_id = Some(ctx.trace_id);
            self.span_id = Some(ctx.span_id);
        }
    }

    /// Closes the span; valid on an open span only, so a span is closed
    /// exactly once. Everything else about the span, its identifiers
    /// included, stays as it was.
    pub fn close(&mut self)
        requires
            !old(self).closed,
        ensures
            final(self).name == old(self).name,
            final(self).method == old(self).method,
            final(self).uri == old(self).uri,
            final(self).route == old(self).route,
            final(self).trace_id == old(self).trace_id,
            final(self).span_id == old(self).span_id,
            final(self).closed,
    {
        self.closed = true;
    }
}

} // verus!
