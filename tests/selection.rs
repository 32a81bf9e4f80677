use otel_fetch::backend::{select, select_normalized, Backend, ConfigError};
use otel_fetch::run::{child_parent, outcome_of, poll_ambient, Discipline, FetchError};
use otel_fetch::trace::TraceContext;

#[test]
fn select_each_backend_by_name() {
    assert_eq!(select("reqwest"), Ok(Backend::Reqwest));
    assert_eq!(select("isahc"), Ok(Backend::Isahc));
    assert_eq!(select("surf"), Ok(Backend::Surf));
}

#[test]
fn select_ignores_case_and_surrounding_space() {
    assert_eq!(select("  ReqwestLike "), Ok(Backend::Reqwest));
    assert_eq!(select("ISAHC\n"), Ok(Backend::Isahc));
    assert_eq!(select("\tSurfLike"), Ok(Backend::Surf));
}

#[test]
fn select_backends_are_distinct() {
    let a = select("reqwest").unwrap();
    let b = select("isahc").unwrap();
    let c = select("surf").unwrap();
    assert_ne!(a, b);
    assert_ne!(b, c);
    assert_ne!(a, c);
}

#[test]
fn select_rejects_unknown_names() {
    assert_eq!(select("bogus"), Err(ConfigError::UnknownBackend));
    assert_eq!(select(""), Err(ConfigError::UnknownBackend));
    assert_eq!(select("   "), Err(ConfigError::UnknownBackend));
    assert_eq!(select("req west"), Err(ConfigError::UnknownBackend));
    assert_eq!(select("surfs"), Err(ConfigError::UnknownBackend));
    assert_eq!(select("likesurf"), Err(ConfigError::UnknownBackend));
}

#[test]
fn select_normalized_does_not_fold_case() {
    assert_eq!(select_normalized("isahclike"), Ok(Backend::Isahc));
    assert_eq!(select_normalized("Isahc"), Err(ConfigError::UnknownBackend));
    assert_eq!(select_normalized(" surf"), Err(ConfigError::UnknownBackend));
}

#[test]
fn backend_names_and_disciplines() {
    assert_eq!(Backend::Reqwest.name(), "reqwest");
    assert_eq!(Backend::Isahc.name(), "isahc");
    assert_eq!(Backend::Surf.name(), "surf");
    assert_eq!(Backend::Reqwest.discipline(), Discipline::Inherited);
    assert_eq!(Backend::Isahc.discipline(), Discipline::Attached);
    assert_eq!(Backend::Surf.discipline(), Discipline::ExplicitPass);
}

#[test]
fn child_parent_follows_discipline() {
    let carried = TraceContext { span: Some(1) };
    let other = TraceContext { span: Some(2) };
    assert_eq!(child_parent(Discipline::Inherited, carried, other), other);
    assert_eq!(child_parent(Discipline::Attached, carried, other), carried);
    assert_eq!(child_parent(Discipline::ExplicitPass, carried, other), carried);
    assert_eq!(poll_ambient(Discipline::Inherited, carried, other), carried);
    assert_eq!(poll_ambient(Discipline::Attached, carried, other), carried);
    assert_eq!(poll_ambient(Discipline::ExplicitPass, carried, other), other);
}

#[test]
fn outcome_of_each_case() {
    assert_eq!(outcome_of(Ok(Ok("hello".to_string()))), Ok("hello".to_string()));
    assert_eq!(
        outcome_of(Err("connection refused".to_string())),
        Err(FetchError::RequestFailed("connection refused".to_string()))
    );
    assert_eq!(
        outcome_of(Ok(Err("invalid utf-8".to_string()))),
        Err(FetchError::DecodeFailed("invalid utf-8".to_string()))
    );
}
