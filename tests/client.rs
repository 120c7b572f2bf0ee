use auth_broker::client::{
    cache_location, create_url, is_token_valid, is_token_valid_at, poll_reply, poll_tick,
    sanitize_component, status_url, AuthClientError, CacheLocation, ClientConfig, PollAction,
    StatusReply,
};
use auth_broker::model::{RequestStatus, TokenBundle};

fn cfg(poll_interval_ms: u64, max_wait_ms: u64) -> ClientConfig {
    ClientConfig {
        router_base_url: "http://127.0.0.1:7777/".to_string(),
        client_name: "my cli".to_string(),
        hostname: "box.local".to_string(),
        cache_path: None,
        account_namespace: None,
        poll_interval_ms,
        max_wait_ms,
    }
}

fn bundle(expires_at: Option<i64>) -> TokenBundle {
    TokenBundle {
        access_token: "tok".to_string(),
        refresh_token: None,
        expires_at,
        token_type: "Bearer".to_string(),
        scope: None,
    }
}

fn body(status: RequestStatus, token: Option<TokenBundle>, error: Option<&str>) -> StatusReply {
    StatusReply::Body {
        status,
        token,
        error: error.map(|e| e.to_string()),
    }
}

#[test]
fn validity_margin_is_thirty_seconds() {
    let now = 1_000_000;
    assert!(is_token_valid_at(&bundle(Some(now + 31)), now));
    assert!(!is_token_valid_at(&bundle(Some(now + 29)), now));
    assert!(!is_token_valid_at(&bundle(Some(now + 30)), now));
    assert!(is_token_valid_at(&bundle(None), now));
    assert!(is_token_valid_at(&bundle(None), i64::MAX));
    assert!(!is_token_valid_at(&bundle(Some(i64::MIN)), 0));
}

#[test]
fn validity_by_system_clock() {
    assert!(is_token_valid(&bundle(None)));
    assert!(!is_token_valid(&bundle(Some(0))));
    assert!(is_token_valid(&bundle(Some(i64::MAX))));
}

#[test]
fn sanitize_replaces_unsafe_characters() {
    assert_eq!(sanitize_component("abc-DEF_09"), "abc-DEF_09");
    assert_eq!(sanitize_component("my cli/host.x"), "my_cli_host_x");
    assert_eq!(sanitize_component("é"), "_");
    assert_eq!(sanitize_component(""), "_");
}

#[test]
fn cache_location_prefers_explicit_path_then_namespace() {
    let mut c = cfg(10, 10);
    match cache_location(&c) {
        CacheLocation::Namespaced(ns) => assert_eq!(ns, "my_cli-box_local"),
        other => panic!("{other:?}"),
    }
    c.account_namespace = Some("work".to_string());
    match cache_location(&c) {
        CacheLocation::Namespaced(ns) => assert_eq!(ns, "work"),
        other => panic!("{other:?}"),
    }
    c.cache_path = Some("/tmp/x.json".to_string());
    match cache_location(&c) {
        CacheLocation::Explicit(p) => assert_eq!(p, "/tmp/x.json"),
        other => panic!("{other:?}"),
    }
}

#[test]
fn router_urls_drop_trailing_slashes() {
    assert_eq!(
        create_url("http://127.0.0.1:7777//"),
        "http://127.0.0.1:7777/v1/token-requests"
    );
    assert_eq!(
        status_url("http://r.example", "abc"),
        "http://r.example/v1/token-requests/abc/status"
    );
}

#[test]
fn polling_pending_pending_approved_returns_token_after_three_polls() {
    let c = cfg(2000, 300_000);
    let mut replies = vec![
        body(RequestStatus::Pending, None, None),
        body(RequestStatus::Pending, None, None),
        body(RequestStatus::Approved, Some(bundle(Some(5))), None),
    ]
    .into_iter();
    let mut elapsed = 0u64;
    let mut polls = 0;
    let outcome = loop {
        match poll_tick(&c, elapsed) {
            PollAction::FetchStatus => {}
            PollAction::Finish(r) => break r,
            PollAction::Sleep(_) => unreachable!(),
        }
        polls += 1;
        match poll_reply(&c, replies.next().expect("no more replies")) {
            PollAction::Sleep(ms) => {
                assert_eq!(ms, 2000);
                elapsed += ms;
            }
            PollAction::Finish(r) => break r,
            PollAction::FetchStatus => unreachable!(),
        }
    };
    assert_eq!(polls, 3);
    let t = outcome.unwrap();
    assert_eq!(t.access_token, "tok");
    assert_eq!(t.expires_at, Some(5));
}

#[test]
fn polling_times_out_when_deadline_is_shorter_than_interval() {
    let c = cfg(1000, 500);
    let mut elapsed = 0u64;
    let mut polls = 0;
    let outcome = loop {
        match poll_tick(&c, elapsed) {
            PollAction::FetchStatus => {}
            PollAction::Finish(r) => break r,
            PollAction::Sleep(_) => unreachable!(),
        }
        polls += 1;
        match poll_reply(&c, body(RequestStatus::Pending, None, None)) {
            PollAction::Sleep(ms) => elapsed += ms,
            PollAction::Finish(_) => panic!("terminal status seen"),
            PollAction::FetchStatus => unreachable!(),
        }
    };
    assert_eq!(polls, 1);
    assert!(matches!(outcome, Err(AuthClientError::Timeout)));
}

#[test]
fn poll_replies_for_terminal_and_failed_polls() {
    let c = cfg(10, 10);
    assert!(matches!(
        poll_reply(&c, body(RequestStatus::Denied, None, None)),
        PollAction::Finish(Err(AuthClientError::Denied))
    ));
    assert!(matches!(
        poll_reply(&c, body(RequestStatus::Cancelled, None, None)),
        PollAction::Finish(Err(AuthClientError::Denied))
    ));
    match poll_reply(&c, body(RequestStatus::Approved, None, None)) {
        PollAction::Finish(Err(AuthClientError::Router(m))) => {
            assert_eq!(m, "approved but no token present")
        }
        other => panic!("{other:?}"),
    }
    match poll_reply(&c, body(RequestStatus::Error, None, Some("boom"))) {
        PollAction::Finish(Err(AuthClientError::Router(m))) => assert_eq!(m, "boom"),
        other => panic!("{other:?}"),
    }
    match poll_reply(&c, body(RequestStatus::Error, None, None)) {
        PollAction::Finish(Err(AuthClientError::Router(m))) => assert_eq!(m, "unknown error"),
        other => panic!("{other:?}"),
    }
    match poll_reply(&c, StatusReply::Failed("refused".to_string())) {
        PollAction::Finish(Err(AuthClientError::Http(m))) => assert_eq!(m, "refused"),
        other => panic!("{other:?}"),
    }
    assert!(matches!(
        poll_reply(&c, body(RequestStatus::InProgress, None, None)),
        PollAction::Sleep(10)
    ));
    assert!(matches!(poll_tick(&c, 10), PollAction::FetchStatus));
    assert!(matches!(
        poll_tick(&c, 11),
        PollAction::Finish(Err(AuthClientError::Timeout))
    ));
}

#[test]
fn client_error_messages() {
    assert_eq!(AuthClientError::Http("x".to_string()).message(), "HTTP error: x");
    assert_eq!(
        AuthClientError::Router("y".to_string()).message(),
        "Router returned error: y"
    );
    assert_eq!(
        AuthClientError::Denied.message(),
        "Request was denied or cancelled by user"
    );
    assert_eq!(
        AuthClientError::Timeout.message(),
        "Timed out waiting for authorization"
    );
    assert_eq!(AuthClientError::Cache("z".to_string()).message(), "Cache error: z");
    assert_eq!(
        AuthClientError::Config("w".to_string()).message(),
        "Invalid configuration: w"
    );
}
