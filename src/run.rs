use vstd::prelude::*;
use crate::backend::{Backend, ConfigError, parse_spec, lower_of, trimmed_of, select};
use crate::trace::{Tracer, TraceContext, SpanKind, SpanRecord, ctx_in, records, MAX_SPANS};

verus! {

/// How a trace context reaches the operation that runs a request.
#[derive(Clone, Copy, Debug, PartialEq, Eq, Structural)]
pub enum Discipline {
    /// The operation reads whatever context is ambient when it starts running.
    Inherited,
    /// The context is bound to the operation's future before it is polled.
    Attached,
    /// The context is handed to the operation as an ordinary value.
    ExplicitPass,
}

pub open spec fn discipline_spec(b: Backend) -> Discipline {
    match b {
        Backend::Reqwest => Discipline::Inherited,
        Backend::Isahc => Discipline::Attached,
        Backend::Surf => Discipline::ExplicitPass,
    }
}

/// The context a child operation creates its span under, given the context the
/// caller carried to it and the one ambient on the worker when it starts.
pub open spec fn child_parent_spec(d: Discipline, carried: TraceContext, ambient: TraceContext) -> TraceContext {
    match d {
        Discipline::Inherited => ambient,
        Discipline::Attached => carried,
        Discipline::ExplicitPass => carried,
    }
}

/// The context ambient on the worker when the child starts: an inherited
/// operation is instrumented with `carried`, which it enters on every poll; an
/// attached context is installed over whatever the worker holds; an explicitly
/// passed one leaves the worker's context as the scheduler left it.
pub open spec fn poll_ambient_spec(d: Discipline, carried: TraceContext, worker: TraceContext) -> TraceContext {
    match d {
        Discipline::Inherited => carried,
        Discipline::Attached => carried,
        Discipline::ExplicitPass => worker,
    }
}

impl Backend {
    /// The propagation discipline the backend requires.
    pub fn discipline(&self) -> (r: Discipline)
        ensures
            r == discipline_spec(*self),
    {
        match self {
            Backend::Reqwest => Discipline::Inherited,
            Backend::Isahc => Discipline::Attached,
            Backend::Surf => Discipline::ExplicitPass,
        }
    }
}

/// The context a child operation's span becomes a child of.
pub fn child_parent(d: Discipline, carried: TraceContext, ambient: TraceContext) -> (r: TraceContext)
    ensures
        r == child_parent_spec(d, carried, ambient),
{
    match d {
        Discipline::Inherited => ambient,
        Discipline::Attached => carried,
        Discipline::ExplicitPass => carried,
    }
}

/// The context ambient on the worker when a child operation starts.
pub fn poll_ambient(d: Discipline, carried: TraceContext, worker: TraceContext) -> (r: TraceContext)
    ensures
        r == poll_ambient_spec(d, carried, worker),
{
    match d {
        Discipline::Inherited => carried,
        Discipline::Attached => carried,
        Discipline::ExplicitPass => worker,
    }
}

/// Why a request produced no text.
#[derive(Clone, Debug, PartialEq, Eq)]
pub enum FetchError {
    /// The request failed at the network or protocol level.
    RequestFailed(String),
    /// The response body could not be read as text.
    DecodeFailed(String),
}

/// What a request produced: the response text or the reason it failed.
pub type Outcome = Result<String, FetchError>;

/// The outcome of a request, given whether sending it failed (with a reason)
/// and, once sent, whether reading its body as text did.
pub fn outcome_of(sent: Result<Result<String, String>, String>) -> (r: Outcome)
    ensures
        match sent {
            Err(reason) => r == Err::<String, FetchError>(FetchError::RequestFailed(reason)),
            Ok(Err(reason)) => r == Err::<String, FetchError>(FetchError::DecodeFailed(reason)),
            Ok(Ok(text)) => r == Ok::<String, FetchError>(text),
        },
{
    match sent {
        Err(reason) => Err(FetchError::RequestFailed(reason)),
        Ok(Err(reason)) => Err(FetchError::DecodeFailed(reason)),
        Ok(Ok(text)) => Ok(text),
    }
}

/// Whether an outcome is a success, and the text a log event reports for it.
pub open spec fn report_spec(o: Outcome) -> (bool, Seq<char>) {
    match o {
        Ok(text) => (true, text@),
        Err(FetchError::RequestFailed(reason)) => (false, reason@),
        Err(FetchError::DecodeFailed(reason)) => (false, reason@),
    }
}

/// One run of a request: the backend it goes through, the root span, the
/// request's child span, and the context the caller held before the run.
pub struct Run {
    pub backend: Backend,
    pub outer: TraceContext,
    pub root: TraceContext,
    pub child: TraceContext,
}

impl Run {
    /// Whether the run's contexts belong to the tracer's tree.
    pub open spec fn wf(&self, t: &Tracer) -> bool {
        &&& t.wf()
        &&& ctx_in(self.outer, t.spans@.len())
        &&& ctx_in(self.root, t.spans@.len())
        &&& ctx_in(self.child, t.spans@.len())
    }

    /// Starts a run: selects the backend the configured name designates and,
    /// when that succeeds, opens the root span `main` under the ambient
    /// context and enters it. An unknown name aborts before any span work and
    /// leaves the tracer as it was.
    pub fn begin(t: &mut Tracer, backend_name: &str, now: u64) -> (r: Result<Run, ConfigError>)
        requires
            old(t).wf(),
        ensures
            final(t).wf(),
            parse_spec(lower_of(trimmed_of(backend_name@))) matches Err(e) ==> r == Err::<Run, ConfigError>(e)
                && *final(t) == *old(t),
            parse_spec(lower_of(trimmed_of(backend_name@))) matches Ok(b) ==> r matches Ok(run) && {
                &&& run.backend == b
                &&& run.wf(final(t))
                &&& run.outer == old(t).ambient
                &&& run.child.span.is_none()
                &&& final(t).ambient == run.root
                &&& final(t).state == old(t).state
                &&& final(t).events@ == old(t).events@
                &&& final(t).exported@ == old(t).exported@
                &&& records(old(t).state) && old(t).spans@.len() < MAX_SPANS ==> {
                    &&& run.root.span == Some((old(t).spans@.len() + 1) as u64)
                    &&& final(t).spans@ == old(t).spans@.push(SpanRecord {
                        id: (old(t).spans@.len() + 1) as u64,
                        parent: old(t).ambient.span,
                        kind: SpanKind::Root,
                        start: now,
                        end: None,
                    })
                }
            },
    {
        match select(backend_name) {
            Err(e) => Err(e),
            Ok(b) => {
                let outer = t.ambient;
                let root = t.start_span(SpanKind::Root, outer, now);
                t.enter(root);
                Ok(Run { backend: b, outer, root, child: TraceContext::empty() })
            }
        }
    }

    /// Starts the request's child span at time `now`, on a worker whose ambient
    /// context is `worker`, carrying the root context to it by the backend's
    /// discipline; the child span is then entered.
    pub fn dispatch(&mut self, t: &mut Tracer, worker: TraceContext, now: u64)
        requires
            old(self).wf(old(t)),
            ctx_in(worker, old(t).spans@.len()),
        ensures
            final(self).wf(final(t)),
            final(self).backend == old(self).backend,
            final(self).outer == old(self).outer,
            final(self).root == old(self).root,
            final(t).ambient == final(self).child,
            final(t).state == old(t).state,
            final(t).events@ == old(t).events@,
            final(t).exported@ == old(t).exported@,
            records(old(t).state) && old(t).spans@.len() < MAX_SPANS ==> {
                &&& final(self).child.span == Some((old(t).spans@.len() + 1) as u64)
                &&& final(t).spans@ == old(t).spans@.push(SpanRecord {
                    id: (old(t).spans@.len() + 1) as u64,
                    parent: child_parent_spec(
                        discipline_spec(old(self).backend),
                        old(self).root,
                        poll_ambient_spec(discipline_spec(old(self).backend), old(self).root, worker),
                    ).span,
                    kind: SpanKind::Request(old(self).backend),
                    start: now,
                    end: None,
                })
                &&& final(t).spans@.last().parent == old(self).root.span
            },
    {
        let d = self.backend.discipline();
        let carried = self.root;
        t.enter(worker);
        t.enter(poll_ambient(d, carried, worker));
        let parent = child_parent(d, carried, t.ambient);
        let child = t.start_span(SpanKind::Request(self.backend), parent, now);
        t.enter(child);
        self.child = child;
    }

    /// Ends the run with the request's outcome at time `now`: closes the child
    /// span, records the outcome as an event on the root span, closes the root
    /// span and gives the caller its context back. Closing does not depend on
    /// the outcome; the outcome is returned unchanged.
    pub fn complete(self, t: &mut Tracer, outcome: Outcome, now: u64) -> (r: Outcome)
        requires
            self.wf(old(t)),
        ensures
            final(t).wf(),
            r == outcome,
            final(t).ambient == self.outer,
            final(t).state == old(t).state,
            final(t).spans@.len() == old(t).spans@.len(),
            forall|i: int| 0 <= i < old(t).spans@.len() ==> {
                &&& (#[trigger] final(t).spans@[i]).parent == old(t).spans@[i].parent
                &&& final(t).spans@[i].kind == old(t).spans@[i].kind
                &&& final(t).spans@[i].start == old(t).spans@[i].start
                &&& old(t).spans@[i].end.is_some() ==> final(t).spans@[i].end == old(t).spans@[i].end
            },
            self.child.span matches Some(id) ==> final(t).span(id).end.is_some(),
            self.root.span matches Some(id) ==> final(t).span(id).end.is_some(),
            final(t).events@.len() == old(t).events@.len() + 1,
            forall|e: int| 0 <= e < old(t).events@.len() ==> #[trigger] final(t).events@[e] == old(t).events@[e],
            final(t).events@.last().span == self.root.span,
            (final(t).events@.last().ok, final(t).events@.last().text@) == report_spec(outcome),
    {
        t.end_span(self.child, now);
        let (ok, text) = match &outcome {
            Ok(body) => (true, body.clone()),
            Err(FetchError::RequestFailed(reason)) => (false, reason.clone()),
            Err(FetchError::DecodeFailed(reason)) => (false, reason.clone()),
        };
        t.log(self.root, ok, text);
        t.end_span(self.root, now);
        t.enter(self.outer);
        outcome
    }
}

} // verus!
