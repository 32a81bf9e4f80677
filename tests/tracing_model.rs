use otel_fetch::backend::{Backend, ConfigError};
use otel_fetch::run::{outcome_of, FetchError, Run};
use otel_fetch::trace::{ExporterState, SpanKind, TraceContext, Tracer};

fn active_tracer() -> Tracer {
    let mut t = Tracer::new();
    assert!(t.init("localhost:6831", "otel-fetch"));
    t
}

#[test]
fn init_and_shutdown_take_effect_once() {
    let mut t = Tracer::new();
    assert_eq!(t.state, ExporterState::Uninitialized);
    assert!(!t.shutdown());
    assert!(t.init("localhost:6831", "svc"));
    assert_eq!(t.endpoint, "localhost:6831");
    assert_eq!(t.service, "svc");
    assert!(!t.init("elsewhere:1", "other"));
    assert_eq!(t.endpoint, "localhost:6831");
    assert!(t.shutdown());
    assert_eq!(t.state, ExporterState::ShutDown);
    assert!(!t.shutdown());
    assert!(!t.init("localhost:6831", "svc"));
    assert_eq!(t.state, ExporterState::ShutDown);
}

#[test]
fn spans_after_shutdown_are_dropped() {
    let mut t = active_tracer();
    assert!(t.shutdown());
    let c = t.start_span(SpanKind::Request(Backend::Surf), TraceContext::empty(), 5);
    assert_eq!(c, TraceContext::empty());
    assert!(t.spans.is_empty());
    assert_eq!(t.dropped, 1);
    let mut run = Run::begin(&mut t, "surf", 6).unwrap();
    run.dispatch(&mut t, TraceContext::empty(), 7);
    let out = run.complete(&mut t, Ok("late".to_string()), 8);
    assert_eq!(out, Ok("late".to_string()));
    assert!(t.spans.is_empty());
    assert_eq!(t.dropped, 3);
}

#[test]
fn end_span_never_precedes_start() {
    let mut t = active_tracer();
    let c = t.start_span(SpanKind::Root, TraceContext::empty(), 100);
    assert_eq!(c, TraceContext { span: Some(1) });
    assert!(t.end_span(c, 40));
    assert_eq!(t.spans[0].end, Some(100));
    assert!(!t.end_span(c, 500));
    assert_eq!(t.spans[0].end, Some(100));
    let d = t.start_span(SpanKind::Root, TraceContext::empty(), 10);
    assert!(t.end_span(d, 25));
    assert_eq!(t.spans[1].end, Some(25));
    assert_eq!(t.exported, vec![1, 2]);
}

#[test]
fn span_names() {
    assert_eq!(SpanKind::Root.name(), "main");
    assert_eq!(SpanKind::Request(Backend::Isahc).name(), "isahc");
}

#[test]
fn scenario_success_through_primary_backend() {
    let mut t = active_tracer();
    let mut run = Run::begin(&mut t, "ReqwestLike", 1).unwrap();
    assert_eq!(run.backend, Backend::Reqwest);
    run.dispatch(&mut t, TraceContext::empty(), 2);
    let out = run.complete(&mut t, outcome_of(Ok(Ok("hello".to_string()))), 3);
    assert_eq!(out, Ok("hello".to_string()));
    assert_eq!(t.spans.len(), 2);
    let root = t.spans[0];
    let children: Vec<_> = t.spans.iter().filter(|s| s.parent == Some(root.id)).collect();
    assert_eq!(children.len(), 1);
    assert_eq!(children[0].kind.name(), "reqwest");
    assert_eq!(root.parent, None);
    assert_eq!(t.events.len(), 1);
    assert_eq!(t.events[0].span, Some(root.id));
    assert!(t.events[0].ok);
    assert_eq!(t.events[0].text, "hello");
    assert_eq!(t.ambient, TraceContext::empty());
    assert!(t.shutdown());
}

#[test]
fn scenario_unknown_backend_aborts_without_spans() {
    let mut t = Tracer::new();
    assert!(t.init("localhost:6831", "svc"));
    assert!(matches!(Run::begin(&mut t, "bogus", 1), Err(ConfigError::UnknownBackend)));
    assert!(t.spans.is_empty());
    assert!(t.events.is_empty());
    assert!(t.shutdown());
    assert_eq!(t.state, ExporterState::ShutDown);
}

#[test]
fn scenario_connection_refused_still_closes_spans() {
    let mut t = active_tracer();
    let mut run = Run::begin(&mut t, "isahc", 10).unwrap();
    run.dispatch(&mut t, TraceContext::empty(), 11);
    let out = run.complete(&mut t, outcome_of(Err("connection refused".to_string())), 12);
    assert_eq!(out, Err(FetchError::RequestFailed("connection refused".to_string())));
    assert_eq!(t.spans.len(), 2);
    assert_eq!(t.spans[0].end, Some(12));
    assert_eq!(t.spans[1].end, Some(12));
    assert!(t.spans.iter().all(|s| s.end.unwrap() >= s.start));
    assert!(!t.events[0].ok);
    assert_eq!(t.events[0].text, "connection refused");
    assert_eq!(t.exported, vec![2, 1]);
    assert!(t.shutdown());
}

#[test]
fn scenario_attached_context_survives_a_foreign_worker() {
    let mut t = active_tracer();
    let foreign = t.start_span(SpanKind::Root, TraceContext::empty(), 0);
    let mut run = Run::begin(&mut t, "isahc", 1).unwrap();
    run.dispatch(&mut t, foreign, 2);
    let root_id = run.root.span.unwrap();
    let child_id = run.child.span.unwrap();
    assert_ne!(root_id, foreign.span.unwrap());
    assert_eq!(t.spans[(child_id - 1) as usize].parent, Some(root_id));
    assert_eq!(t.ambient, run.child);
    let out = run.complete(&mut t, Ok(String::new()), 3);
    assert_eq!(out, Ok(String::new()));
}

#[test]
fn every_discipline_parents_the_child_on_the_root() {
    for name in ["reqwest", "isahc", "surf"] {
        let mut t = active_tracer();
        let foreign = t.start_span(SpanKind::Root, TraceContext::empty(), 0);
        let mut run = Run::begin(&mut t, name, 1).unwrap();
        run.dispatch(&mut t, foreign, 2);
        let child = t.spans[(run.child.span.unwrap() - 1) as usize];
        assert_eq!(child.parent, run.root.span);
        assert_eq!(child.kind, SpanKind::Request(run.backend));
    }
}

#[test]
fn decode_failure_is_reported_on_the_root() {
    let mut t = active_tracer();
    let mut run = Run::begin(&mut t, "surf", 1).unwrap();
    run.dispatch(&mut t, TraceContext::empty(), 2);
    let out = run.complete(&mut t, outcome_of(Ok(Err("bad body".to_string()))), 1);
    assert_eq!(out, Err(FetchError::DecodeFailed("bad body".to_string())));
    assert_eq!(t.spans[1].end, Some(2));
    assert_eq!(t.spans[0].end, Some(1));
    assert_eq!(t.events[0].text, "bad body");
}
