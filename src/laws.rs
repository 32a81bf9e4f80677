use vstd::prelude::*;
use crate::backend::{Backend, ConfigError, designates, name_spec, parse_spec};
use crate::trace::{ExporterState, Tracer, TraceContext, after_init, after_shutdown, records};
use crate::run::{Discipline, child_parent_spec, poll_ambient_spec};

verus! {

/// Each backend's name selects that backend, so the three backends are
/// selected by distinct names, and a normalised name that designates none of
/// them is an unknown backend.
pub proof fn selection_is_exact(s: Seq<char>)
    ensures
        parse_spec(name_spec(Backend::Reqwest)) == Ok::<Backend, ConfigError>(Backend::Reqwest),
        parse_spec(name_spec(Backend::Isahc)) == Ok::<Backend, ConfigError>(Backend::Isahc),
        parse_spec(name_spec(Backend::Surf)) == Ok::<Backend, ConfigError>(Backend::Surf),
        parse_spec(s) matches Ok(b) ==> designates(s, b),
        (!designates(s, Backend::Reqwest) && !designates(s, Backend::Isahc) && !designates(s, Backend::Surf))
            ==> parse_spec(s) == Err::<Backend, ConfigError>(ConfigError::UnknownBackend),
{
    assert(name_spec(Backend::Isahc).len() == 5);
    assert(name_spec(Backend::Surf).len() == 4);
    assert(name_spec(Backend::Reqwest).len() == 7);
    assert((name_spec(Backend::Reqwest) + seq!['l', 'i', 'k', 'e']).len() == 11);
    assert((name_spec(Backend::Isahc) + seq!['l', 'i', 'k', 'e']).len() == 9);
}

/// Whatever context the worker holds when the child operation starts, the
/// context its span is created under is the one the caller carried to it, for
/// every propagation discipline.
pub proof fn child_span_parent_is_carried(d: Discipline, carried: TraceContext, worker: TraceContext)
    ensures
        child_parent_spec(d, carried, poll_ambient_spec(d, carried, worker)) == carried,
{
}

/// A closed span never ends before it starts.
pub proof fn closed_span_ends_after_start(t: &Tracer, id: u64)
    requires
        t.wf(),
        t.has_span(id),
        t.span(id).end.is_some(),
    ensures
        t.span(id).end.unwrap() >= t.span(id).start,
{
    assert(crate::trace::record_ok(t.spans@[id - 1], id - 1));
}

/// One `init` followed by one `shutdown` starts and then stops the exporter; a
/// second `shutdown`, or another `init`, changes nothing, and spans started
/// after the shutdown are not recorded.
pub proof fn shutdown_once_per_init()
    ensures
        after_init(ExporterState::Uninitialized) == ExporterState::Active,
        after_shutdown(after_init(ExporterState::Uninitialized)) == ExporterState::ShutDown,
        after_shutdown(ExporterState::ShutDown) == ExporterState::ShutDown,
        after_init(ExporterState::ShutDown) == ExporterState::ShutDown,
        !records(ExporterState::ShutDown),
{
}

} // verus!
