use proxy_service::{
    backend_uri, outbound_target, Action, Backend, Event, Exchange, Phase, Reply, Upstream,
    BAD_GATEWAY, DEFAULT_DEADLINE_SECS, SERVICE_UNAVAILABLE,
};

fn chosen(server: &str) -> Event {
    Event::Chosen(Some(Backend { server: server.to_string() }))
}

#[test]
fn widgets_request_reaches_backend_and_passes_through() {
    let mut ex = Exchange::new(Some("/widgets?x=1".to_string()), DEFAULT_DEADLINE_SECS);
    match ex.step(chosen("http://10.0.0.5:8080")) {
        Some(Action::Dispatch { target, uri, deadline_secs }) => {
            assert_eq!(target, "http://10.0.0.5:8080/widgets?x=1");
            assert_eq!(uri.to_string(), "http://10.0.0.5:8080/widgets?x=1");
            assert_eq!(uri.path_and_query().map(|p| p.as_str()), Some("/widgets?x=1"));
            assert_eq!(deadline_secs, 5);
        }
        _ => panic!("expected a dispatch"),
    }
    assert_eq!(ex.phase(), Phase::Forwarding);
    assert!(matches!(
        ex.step(Event::Finished(Upstream::Responded)),
        Some(Action::Respond(Reply::Passthrough))
    ));
    assert_eq!(ex.phase(), Phase::Done);
}

#[test]
fn no_backend_answers_service_unavailable() {
    for path in [None, Some("/"), Some("/a/b?c=d"), Some("")] {
        let mut ex = Exchange::new(path.map(|p| p.to_string()), DEFAULT_DEADLINE_SECS);
        assert!(matches!(
            ex.step(Event::Chosen(None)),
            Some(Action::Respond(Reply::Status(503)))
        ));
        assert_eq!(ex.phase(), Phase::Done);
        // Nothing the runtime reports afterwards leads to an outbound request.
        assert!(ex.step(chosen("http://10.0.0.5:8080")).is_none());
        assert!(ex.step(Event::Finished(Upstream::Responded)).is_none());
    }
    assert_eq!(SERVICE_UNAVAILABLE, 503);
}

#[test]
fn transport_failure_answers_bad_gateway() {
    let mut ex = Exchange::new(Some("/x".to_string()), DEFAULT_DEADLINE_SECS);
    assert!(matches!(ex.step(chosen("http://127.0.0.1:1")), Some(Action::Dispatch { .. })));
    assert!(matches!(
        ex.step(Event::Finished(Upstream::Failed)),
        Some(Action::Respond(Reply::Status(502)))
    ));
    assert_eq!(BAD_GATEWAY, 502);
}

#[test]
fn timeout_answers_bad_gateway_and_uses_configured_deadline() {
    let mut ex = Exchange::new(Some("/slow".to_string()), 2);
    assert_eq!(ex.deadline_secs(), 2);
    match ex.step(chosen("http://10.0.0.5:8080")) {
        Some(Action::Dispatch { deadline_secs, .. }) => assert_eq!(deadline_secs, 2),
        _ => panic!("expected a dispatch"),
    }
    assert!(matches!(
        ex.step(Event::Finished(Upstream::TimedOut)),
        Some(Action::Respond(Reply::Status(502)))
    ));
}

#[test]
fn default_deadline_is_five_seconds() {
    assert_eq!(DEFAULT_DEADLINE_SECS, 5);
}

#[test]
fn missing_path_defaults_to_root() {
    assert_eq!(outbound_target("http://10.0.0.5:8080", None), "http://10.0.0.5:8080/");
    assert_eq!(outbound_target("http://10.0.0.5:8080", Some("")), "http://10.0.0.5:8080/");
    let mut ex = Exchange::new(None, DEFAULT_DEADLINE_SECS);
    match ex.step(chosen("https://example.com:443")) {
        Some(Action::Dispatch { target, uri, .. }) => {
            assert_eq!(target, "https://example.com:443/");
            assert_eq!(uri.path(), "/");
        }
        _ => panic!("expected a dispatch"),
    }
}

#[test]
fn path_and_query_kept_exactly() {
    assert_eq!(
        outbound_target("http://b:1", Some("/a%20b/c?x=1&y=%2F#frag")),
        "http://b:1/a%20b/c?x=1&y=%2F#frag"
    );
    assert_eq!(outbound_target("http://b:1", Some("/")), "http://b:1/");
}

#[test]
fn same_backend_each_request_gets_its_own_dispatch() {
    let paths = ["/one", "/two?q=2", "/three"];
    let mut targets = Vec::new();
    for p in paths {
        let mut ex = Exchange::new(Some(p.to_string()), DEFAULT_DEADLINE_SECS);
        match ex.step(chosen("http://10.0.0.5:8080")) {
            Some(Action::Dispatch { target, .. }) => targets.push(target),
            _ => panic!("expected a dispatch"),
        }
        // A second selection result does not produce a second request.
        assert!(ex.step(chosen("http://10.0.0.5:8080")).is_none());
    }
    assert_eq!(
        targets,
        vec![
            "http://10.0.0.5:8080/one".to_string(),
            "http://10.0.0.5:8080/two?q=2".to_string(),
            "http://10.0.0.5:8080/three".to_string(),
        ]
    );
}

#[test]
fn unparsable_target_answers_bad_gateway() {
    let mut ex = Exchange::new(Some("/x".to_string()), DEFAULT_DEADLINE_SECS);
    assert!(matches!(
        ex.step(chosen("http://bad host")),
        Some(Action::Respond(Reply::Status(502)))
    ));
    assert_eq!(ex.phase(), Phase::Done);
}

#[test]
fn backend_uri_parses_combined_text() {
    let uri = backend_uri("http://10.0.0.5:8080", Some("/widgets?x=1")).expect("a uri");
    assert_eq!(uri.scheme_str(), Some("http"));
    assert_eq!(uri.host(), Some("10.0.0.5"));
    assert_eq!(uri.port_u16(), Some(8080));
    assert_eq!(uri.query(), Some("x=1"));
    assert!(backend_uri("http://bad host", None).is_none());
}

#[test]
fn events_out_of_turn_change_nothing() {
    let mut ex = Exchange::new(Some("/x".to_string()), DEFAULT_DEADLINE_SECS);
    assert!(ex.step(Event::Finished(Upstream::Responded)).is_none());
    assert_eq!(ex.phase(), Phase::Selecting);
    assert!(matches!(ex.step(chosen("http://h:1")), Some(Action::Dispatch { .. })));
    assert!(ex.step(Event::Chosen(None)).is_none());
    assert_eq!(ex.phase(), Phase::Forwarding);
}
