use serve_core::config::{validate, LimitPolicy, ServeOptions};
use serve_core::dispatch::{
    prepare_request, resolve_handoff, RecvOutcome, RequestError, SilentCause, TaskOutcome,
};
use serve_core::ids::RequestIdGen;
use serve_core::uri::{normalize_uri, resolve_target, RequestTarget};

fn serve_options() -> ServeOptions {
    ServeOptions {
        nn: None,
        threads: None,
        http: None,
        cli: None,
        common: None,
        component_model: None,
        guest_profiler: false,
        nn_supported: false,
        timeout: Some(2_000),
        fuel: Some(1_000),
        limits: LimitPolicy {
            max_memory_bytes: Some(1 << 20),
            max_table_elements: Some(4_096),
        },
    }
}

fn target(
    scheme: Option<&str>,
    authority_host: Option<&str>,
    path_and_query: Option<&str>,
    host_header: Option<&[u8]>,
) -> RequestTarget {
    RequestTarget {
        scheme: scheme.map(str::to_owned),
        authority_host: authority_host.map(str::to_owned),
        path_and_query: path_and_query.map(str::to_owned),
        host_header: host_header.map(<[u8]>::to_vec),
    }
}

#[test]
fn request_ids_are_unique_and_increasing() {
    let mut ids = RequestIdGen::new();
    let mut seen = Vec::new();
    for expected in 0u64..100 {
        let id = ids.next_id();
        assert_eq!(id, expected);
        assert!(!seen.contains(&id));
        seen.push(id);
    }
}

#[test]
fn host_header_is_preferred_authority() {
    let t = target(None, Some("fallback.example"), Some("/"), Some(b"host.example:8080"));
    let a = resolve_target(t).unwrap();
    assert_eq!(a.scheme, "http");
    assert_eq!(a.authority, "host.example:8080");
    assert_eq!(a.path_and_query, "/");
}

#[test]
fn authority_is_fallback_without_host_header() {
    let t = target(Some("https"), Some("fallback.example"), Some("/x?q=1"), None);
    let a = resolve_target(t).unwrap();
    assert_eq!(a.scheme, "https");
    assert_eq!(a.authority, "fallback.example");
    assert_eq!(a.path_and_query, "/x?q=1");
}

#[test]
fn missing_host_and_authority_is_malformed() {
    let t = target(None, None, Some("/"), None);
    assert!(resolve_target(t).is_err());
}

#[test]
fn missing_path_is_malformed() {
    let t = target(None, Some("a.example"), None, None);
    assert!(resolve_target(t).is_err());
}

#[test]
fn invalid_utf8_host_header_is_malformed() {
    let t = target(None, Some("fallback.example"), Some("/"), Some(&[0xff, 0xfe]));
    assert!(resolve_target(t).is_err());
}

#[test]
fn normalized_uri_is_absolute() {
    let t = target(None, None, Some("/"), Some(b"localhost"));
    let (a, uri) = normalize_uri(t).unwrap();
    assert_eq!(a.authority, "localhost");
    assert_eq!(uri.scheme_str(), Some("http"));
    assert_eq!(uri.authority().map(|h| h.as_str()), Some("localhost"));
    assert_eq!(uri.path(), "/");
    assert_eq!(uri.to_string(), "http://localhost/");
}

#[test]
fn https_scheme_is_preserved() {
    let t = target(Some("https"), None, Some("/a?b=c"), Some(b"secure.example"));
    let (a, uri) = normalize_uri(t).unwrap();
    assert_eq!(a.scheme, "https");
    assert_eq!(uri.scheme_str(), Some("https"));
    assert_eq!(uri.to_string(), "https://secure.example/a?b=c");
}

#[test]
fn unacceptable_authority_is_malformed() {
    let t = target(None, None, Some("/"), Some(b"not a host"));
    assert!(normalize_uri(t).is_err());
}

#[test]
fn malformed_request_never_reaches_a_sandbox() {
    let v = validate(serve_options()).unwrap();
    let mut ids = RequestIdGen::new();
    let r = prepare_request(&v, &mut ids, target(None, None, Some("/"), None));
    assert_eq!(r.err(), Some(RequestError::UriInvalid));
    // The identity was still consumed.
    assert_eq!(ids.next_id(), 1);
}

#[test]
fn prepared_request_carries_fresh_sandbox() {
    let v = validate(serve_options()).unwrap();
    let mut ids = RequestIdGen::new();
    let first = prepare_request(&v, &mut ids, target(None, None, Some("/"), Some(b"localhost")))
        .unwrap();
    let second = prepare_request(&v, &mut ids, target(None, None, Some("/"), Some(b"localhost")))
        .unwrap();
    assert_eq!(first.request_id, 0);
    assert_eq!(second.request_id, 1);
    assert_eq!(first.sandbox.request_id, 0);
    assert_eq!(second.sandbox.request_id, 1);
    assert_eq!(first.sandbox.env_request_id, b"0".to_vec());
    assert_eq!(second.sandbox.env_request_id, b"1".to_vec());
    assert_eq!(first.sandbox.epoch_deadline, Some(11));
    assert_eq!(first.sandbox.fuel, Some(1_000));
    assert_eq!(first.sandbox.limits.max_memory_bytes, Some(1 << 20));
}

#[test]
fn immediate_response_is_forwarded() {
    // A handler that immediately signals a 200 response with body "ok".
    let recv = RecvOutcome::Response((200u16, "ok".to_owned()));
    let r = resolve_handoff(recv, None);
    assert_eq!(r, Ok((200u16, "ok".to_owned())));
}

#[test]
fn guest_error_is_forwarded() {
    let recv: RecvOutcome<u8> = RecvOutcome::GuestError("bad request".to_owned());
    let r = resolve_handoff(recv, None);
    assert_eq!(r, Err(RequestError::Guest("bad request".to_owned())));
}

#[test]
fn silent_failure_surfaces_its_own_cause() {
    let recv: RecvOutcome<u8> = RecvOutcome::Closed;
    let r = resolve_handoff(recv, Some(TaskOutcome::Failed("capability mismatch".to_owned())));
    assert_eq!(
        r,
        Err(RequestError::NeverSignalled(SilentCause::HandlerFailed(
            "capability mismatch".to_owned()
        )))
    );
}

#[test]
fn silent_success_is_an_error() {
    let recv: RecvOutcome<u8> = RecvOutcome::Closed;
    let r = resolve_handoff(recv, Some(TaskOutcome::Completed));
    assert_eq!(
        r,
        Err(RequestError::NeverSignalled(SilentCause::HandlerCompleted))
    );
}

#[test]
fn torn_down_task_surfaces_teardown_error() {
    let recv: RecvOutcome<u8> = RecvOutcome::Closed;
    let r = resolve_handoff(recv, Some(TaskOutcome::Panicked("task aborted".to_owned())));
    assert_eq!(
        r,
        Err(RequestError::NeverSignalled(SilentCause::HandlerPanicked(
            "task aborted".to_owned()
        )))
    );
}
