use vstd::prelude::*;
use crate::backend::{Backend, name_spec};

verus! {

/// The largest number of spans a tracer records; further spans are dropped.
pub const MAX_SPANS: u64 = 0xffff_ffff_ffff_fffe;

/// The "current span identity" carried across a call or suspension boundary.
/// `None` stands for the empty context, in which a new span becomes a root.
#[derive(Clone, Copy, Debug, PartialEq, Eq, Structural)]
pub struct TraceContext {
    pub span: Option<u64>,
}

impl TraceContext {
    /// The empty context.
    pub fn empty() -> (r: TraceContext)
        ensures
            r.span.is_none(),
    {
        TraceContext { span: None }
    }
}

/// What a span brackets: the whole run, or one request through a backend
/// (which is the span's name and its backend attribute).
#[derive(Clone, Copy, Debug, PartialEq, Eq, Structural)]
pub enum SpanKind {
    Root,
    Request(Backend),
}

/// The name a span of the given kind carries.
pub open spec fn kind_name(k: SpanKind) -> Seq<char> {
    match k {
        SpanKind::Root => seq!['m', 'a', 'i', 'n'],
        SpanKind::Request(b) => name_spec(b),
    }
}

impl SpanKind {
    /// The span's name: `main` for the root, the backend's name for a request.
    pub fn name(&self) -> (r: &'static str)
        ensures
            r@ == kind_name(*self),
    {
        proof {
            reveal_strlit("main");
        }
        match self {
            SpanKind::Root => "main",
            SpanKind::Request(b) => b.name(),
        }
    }
}

/// One recorded span. Identifiers start at 1 and follow the order of creation.
#[derive(Clone, Copy, Debug, PartialEq, Eq, Structural)]
pub struct SpanRecord {
    pub id: u64,
    pub parent: Option<u64>,
    pub kind: SpanKind,
    pub start: u64,
    pub end: Option<u64>,
}

/// A structured log event attached to a span.
pub struct Event {
    pub span: Option<u64>,
    pub ok: bool,
    pub text: String,
}

/// Where the exporter stands in its lifecycle.
#[derive(Clone, Copy, Debug, PartialEq, Eq, Structural)]
pub enum ExporterState {
    Uninitialized,
    Active,
    ShutDown,
}

/// The exporter state after `init`: only an uninitialised exporter starts.
pub open spec fn after_init(s: ExporterState) -> ExporterState {
    if s == ExporterState::Uninitialized { ExporterState::Active } else { s }
}

/// The exporter state after `shutdown`: only an active exporter shuts down.
pub open spec fn after_shutdown(s: ExporterState) -> ExporterState {
    if s == ExporterState::Active { ExporterState::ShutDown } else { s }
}

/// Whether spans started in this state are recorded and exported.
pub open spec fn records(s: ExporterState) -> bool {
    s == ExporterState::Active
}

/// A span tree under construction together with the exporter that receives
/// the spans as they close.
pub struct Tracer {
    pub spans: Vec<SpanRecord>,
    pub events: Vec<Event>,
    /// The context that the executing thread of control holds ambiently.
    pub ambient: TraceContext,
    pub state: ExporterState,
    /// The collector endpoint given to `init`.
    pub endpoint: String,
    /// The service name given to `init`.
    pub service: String,
    /// Identifiers of the closed spans handed to the exporter, in order.
    pub exported: Vec<u64>,
    /// How many spans were not recorded or not exported.
    pub dropped: u64,
}

/// Whether `id` names a span among the first `n` spans.
pub open spec fn id_in(id: u64, n: nat) -> bool {
    1 <= id && id <= n
}

/// Whether a context is empty or names one of the first `n` spans.
pub open spec fn ctx_in(c: TraceContext, n: nat) -> bool {
    match c.span {
        None => true,
        Some(id) => id_in(id, n),
    }
}

/// Whether a span record is consistent as the `i`-th span of a tree.
pub open spec fn record_ok(r: SpanRecord, i: int) -> bool {
    &&& r.id == i + 1
    &&& match r.parent {
        None => true,
        Some(p) => 1 <= p && p <= i,
    }
    &&& match r.end {
        None => true,
        Some(e) => e >= r.start,
    }
}

impl Tracer {
    /// The span with identifier `id`.
    pub open spec fn span(&self, id: u64) -> SpanRecord {
        self.spans@[id - 1]
    }

    /// Whether `id` identifies a recorded span.
    pub open spec fn has_span(&self, id: u64) -> bool {
        id_in(id, self.spans@.len())
    }

    pub open spec fn wf(&self) -> bool {
        &&& self.spans@.len() <= MAX_SPANS
        &&& forall|i: int| 0 <= i < self.spans@.len() ==> record_ok(#[trigger] self.spans@[i], i)
        &&& ctx_in(self.ambient, self.spans@.len())
        &&& forall|k: int| 0 <= k < self.exported@.len() ==> id_in(#[trigger] self.exported@[k], self.spans@.len())
        &&& forall|e: int| 0 <= e < self.events@.len() ==> ctx_in(TraceContext { span: #[trigger] self.events@[e].span }, self.spans@.len())
    }

    /// A tracer with no spans whose exporter is not yet initialised.
    pub fn new() -> (r: Tracer)
        ensures
            r.wf(),
            r.spans@.len() == 0,
            r.events@.len() == 0,
            r.exported@.len() == 0,
            r.ambient.span.is_none(),
            r.state == ExporterState::Uninitialized,
            r.dropped == 0,
    {
        Tracer {
            spans: Vec::new(),
            events: Vec::new(),
            ambient: TraceContext::empty(),
            state: ExporterState::Uninitialized,
            endpoint: String::new(),
            service: String::new(),
            exported: Vec::new(),
            dropped: 0,
        }
    }

    /// Initialises the exporter for the given collector endpoint and service
    /// name. Only the first call has an effect; it returns whether it did.
    pub fn init(&mut self, endpoint: &str, service: &str) -> (r: bool)
        requires
            old(self).wf(),
        ensures
            final(self).wf(),
            r == (old(self).state == ExporterState::Uninitialized),
            final(self).state == after_init(old(self).state),
            r ==> final(self).state == ExporterState::Active && final(self).endpoint@ == endpoint@
                && final(self).service@ == service@,
            !r ==> final(self).state == old(self).state && final(self).endpoint == old(self).endpoint
                && final(self).service == old(self).service,
            final(self).spans@ == old(self).spans@,
            final(self).events@ == old(self).events@,
            final(self).ambient == old(self).ambient,
            final(self).exported@ == old(self).exported@,
            final(self).dropped == old(self).dropped,
    {
        if self.state == ExporterState::Uninitialized {
            self.state = ExporterState::Active;
            self.endpoint = endpoint.to_owned();
            self.service = service.to_owned();
            true
        } else {
            false
        }
    }

    /// Shuts the exporter down after the spans handed to it are flushed. Only
    /// a call on an active exporter has an effect; it returns whether it did.
    pub fn shutdown(&mut self) -> (r: bool)
        requires
            old(self).wf(),
        ensures
            final(self).wf(),
            r == (old(self).state == ExporterState::Active),
            final(self).state == after_shutdown(old(self).state),
            final(self).spans@ == old(self).spans@,
            final(self).events@ == old(self).events@,
            final(self).ambient == old(self).ambient,
            final(self).exported@ == old(self).exported@,
            final(self).dropped == old(self).dropped,
            final(self).endpoint == old(self).endpoint,
            final(self).service == old(self).service,
    {
        if self.state == ExporterState::Active {
            self.state = ExporterState::ShutDown;
            true
        } else {
            false
        }
    }

    /// Counts one span that is not recorded or not exported.
    fn drop_one(&mut self)
        requires
            old(self).wf(),
        ensures
            final(self).wf(),
            final(self).spans@ == old(self).spans@,
            final(self).events@ == old(self).events@,
            final(self).ambient == old(self).ambient,
            final(self).state == old(self).state,
            final(self).exported@ == old(self).exported@,
            final(self).dropped == (if old(self).dropped < u64::MAX { old(self).dropped + 1 } else { old(self).dropped as int }),
            final(self).endpoint == old(self).endpoint,
            final(self).service == old(self).service,
    {
        if self.dropped < u64::MAX {
            self.dropped = self.dropped + 1;
        }
    }

    /// Starts a span of the given kind at time `now`, as a child of `parent`.
    /// While the exporter is not active, or once the tracer is full, nothing is
    /// recorded and the empty context is returned.
    pub fn start_span(&mut self, kind: SpanKind, parent: TraceContext, now: u64) -> (r: TraceContext)
        requires
            old(self).wf(),
            ctx_in(parent, old(self).spans@.len()),
        ensures
            final(self).wf(),
            final(self).events@ == old(self).events@,
            final(self).ambient == old(self).ambient,
            final(self).state == old(self).state,
            final(self).exported@ == old(self).exported@,
            final(self).endpoint == old(self).endpoint,
            final(self).service == old(self).service,
            records(old(self).state) && old(self).spans@.len() < MAX_SPANS ==> {
                &&& r.span == Some((old(self).spans@.len() + 1) as u64)
                &&& final(self).spans@ == old(self).spans@.push(SpanRecord {
                    id: (old(self).spans@.len() + 1) as u64,
                    parent: parent.span,
                    kind,
                    start: now,
                    end: None,
                })
                &&& final(self).dropped == old(self).dropped
            },
            !(records(old(self).state) && old(self).spans@.len() < MAX_SPANS) ==> {
                &&& r.span.is_none()
                &&& final(self).spans@ == old(self).spans@
                &&& final(self).dropped == (if old(self).dropped < u64::MAX { old(self).dropped + 1 } else { old(self).dropped as int })
            },
    {
        if self.state == ExporterState::Active && (self.spans.len() as u64) < MAX_SPANS {
            let id = self.spans.len() as u64 + 1;
            let rec = SpanRecord { id, parent: parent.span, kind, start: now, end: None };
            self.spans.push(rec);
            proof {
                assert forall|i: int| 0 <= i < self.spans@.len() implies record_ok(#[trigger] self.spans@[i], i) by {
                    if i < old(self).spans@.len() {
                        assert(self.spans@[i] == old(self).spans@[i]);
                    }
                }
                assert forall|e: int| 0 <= e < self.events@.len() implies ctx_in(TraceContext { span: #[trigger] self.events@[e].span }, self.spans@.len()) by {
                    assert(ctx_in(TraceContext { span: old(self).events@[e].span }, old(self).spans@.len()));
                }
            }
            TraceContext { span: Some(id) }
        } else {
            self.drop_one();
            TraceContext::empty()
        }
    }

    /// Closes the span that `ctx` names at time `now`. Its end timestamp is
    /// `now`, or its start where the clock reads earlier, so that it never
    /// precedes the start. The closed span is handed to an active exporter and
    /// counted as dropped otherwise. An empty context, or one that names a span
    /// already closed, changes nothing; the result says whether a span closed.
    pub fn end_span(&mut self, ctx: TraceContext, now: u64) -> (r: bool)
        requires
            old(self).wf(),
            ctx_in(ctx, old(self).spans@.len()),
        ensures
            final(self).wf(),
            final(self).events@ == old(self).events@,
            final(self).ambient == old(self).ambient,
            final(self).state == old(self).state,
            final(self).endpoint == old(self).endpoint,
            final(self).service == old(self).service,
            final(self).spans@.len() == old(self).spans@.len(),
            r == (ctx.span.is_some() && old(self).span(ctx.span.unwrap()).end.is_none()),
            !r ==> final(self).spans@ == old(self).spans@ && final(self).exported@ == old(self).exported@
                && final(self).dropped == old(self).dropped,
            r ==> {
                let id = ctx.span.unwrap();
                let s = old(self).span(id);
                &&& final(self).spans@ == old(self).spans@.update(id - 1, SpanRecord {
                    end: Some(if now >= s.start { now } else { s.start }),
                    ..s
                })
                &&& old(self).state == ExporterState::Active ==> final(self).exported@ == old(self).exported@.push(id)
                    && final(self).dropped == old(self).dropped
                &&& old(self).state != ExporterState::Active ==> final(self).exported@ == old(self).exported@
                    && final(self).dropped == (if old(self).dropped < u64::MAX { old(self).dropped + 1 } else { old(self).dropped as int })
            },
    {
        match ctx.span {
            None => false,
            Some(id) => {
                let n = self.spans.len();
                assert(id_in(id, n as nat));
                let i = (id - 1) as usize;
                let s = self.spans[i];
                if s.end.is_some() {
                    return false;
                }
                let e = if now >= s.start { now } else { s.start };
                self.spans.set(i, SpanRecord { end: Some(e), ..s });
                proof {
                    assert forall|j: int| 0 <= j < self.spans@.len() implies record_ok(#[trigger] self.spans@[j], j) by {
                        assert(record_ok(old(self).spans@[j], j));
                    }
                }
                if self.state == ExporterState::Active {
                    self.exported.push(id);
                    proof {
                        assert forall|k: int| 0 <= k < self.exported@.len() implies id_in(#[trigger] self.exported@[k], self.spans@.len()) by {
                            if k < old(self).exported@.len() {
                                assert(self.exported@[k] == old(self).exported@[k]);
                            }
                        }
                    }
                } else {
                    self.drop_one();
                }
                true
            }
        }
    }

    /// Makes `ctx` the context the executing thread of control holds, and
    /// returns the one it held before.
    pub fn enter(&mut self, ctx: TraceContext) -> (r: TraceContext)
        requires
            old(self).wf(),
            ctx_in(ctx, old(self).spans@.len()),
        ensures
            final(self).wf(),
            r == old(self).ambient,
            final(self).ambient == ctx,
            final(self).spans@ == old(self).spans@,
            final(self).events@ == old(self).events@,
            final(self).state == old(self).state,
            final(self).exported@ == old(self).exported@,
            final(self).dropped == old(self).dropped,
            final(self).endpoint == old(self).endpoint,
            final(self).service == old(self).service,
    {
        let prev = self.ambient;
        self.ambient = ctx;
        prev
    }

    /// Records a structured event on the span that `ctx` names.
    pub fn log(&mut self, ctx: TraceContext, ok: bool, text: String)
        requires
            old(self).wf(),
            ctx_in(ctx, old(self).spans@.len()),
        ensures
            final(self).wf(),
            final(self).events@.len() == old(self).events@.len() + 1,
            forall|e: int| 0 <= e < old(self).events@.len() ==> #[trigger] final(self).events@[e] == old(self).events@[e],
            final(self).events@.last().span == ctx.span,
            final(self).events@.last().ok == ok,
            final(self).events@.last().text@ == text@,
            final(self).spans@ == old(self).spans@,
            final(self).ambient == old(self).ambient,
            final(self).state == old(self).state,
            final(self).exported@ == old(self).exported@,
            final(self).dropped == old(self).dropped,
            final(self).endpoint == old(self).endpoint,
            final(self).service == old(self).service,
    {
        self.events.push(Event { span: ctx.span, ok, text });
        proof {
            assert forall|e: int| 0 <= e < self.events@.len() implies ctx_in(TraceContext { span: #[trigger] self.events@[e].span }, self.spans@.len()) by {
                if e < old(self).events@.len() {
                    assert(self.events@[e] == old(self).events@[e]);
                }
            }
        }
    }
}

} // verus!
