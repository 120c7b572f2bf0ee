use auth_broker::config::ControlBrowserConfig;
use auth_broker::ids::request_id_text;
use auth_broker::lifecycle::ControlClientError;
use auth_broker::notifier::open_auth_url;
use auth_broker::oauth::{
    default_token_type, join_scopes, percent_encode, ExchangeReply, OAuthClient, OAuthConfig,
    OAuthError, TokenResponse,
};
use auth_broker::store::{AuthStore, CreateTokenRequest};

fn config(auth_url: &str) -> OAuthConfig {
    OAuthConfig {
        client_id: "my client".to_string(),
        client_secret: "SECRET-REDACTED".to_string(),
        auth_url: auth_url.to_string(),
        token_url: "https://provider.example/token".to_string(),
        redirect_uri: "http://127.0.0.1:7777/oauth/callback".to_string(),
    }
}

fn response(expires_in: Option<i64>, token_type: Option<&str>) -> TokenResponse {
    TokenResponse {
        access_token: "at".to_string(),
        refresh_token: Some("rt".to_string()),
        expires_in,
        token_type: token_type.map(|s| s.to_string()),
        scope: Some("read write".to_string()),
    }
}

#[test]
fn auth_url_carries_space_joined_scopes_and_state() {
    let mut store = AuthStore::new();
    let created = store
        .create_token_request(CreateTokenRequest { client_name: "cli".to_string(), hostname: "h".to_string(), scopes: vec!["read".to_string(), "write".to_string()] })
        .unwrap();
    let id = created.request_id;
    let rec = store.get(id).unwrap();
    let client = OAuthClient::new(config("https://provider.example/authorize"));
    let url = client.build_auth_url(rec.id, &rec.scopes).unwrap();
    assert!(url.contains("scope=read%20write"), "{url}");
    assert!(url.contains(&format!("state={}", request_id_text(id))), "{url}");
    assert!(url.starts_with("https://provider.example/authorize?response_type=code&"));
    assert!(url.contains("client_id=my%20client"));
    assert!(url.contains("redirect_uri=http%3A%2F%2F127.0.0.1%3A7777%2Foauth%2Fcallback"));
}

#[test]
fn auth_url_keeps_existing_query() {
    let client = OAuthClient::new(config("https://provider.example/authorize?prompt=consent"));
    let url = client.build_auth_url(1, &vec!["a".to_string()]).unwrap();
    assert!(url.starts_with("https://provider.example/authorize?prompt=consent&response_type=code"));
}

#[test]
fn auth_url_rejects_malformed_endpoint() {
    let client = OAuthClient::new(config("not a url"));
    match client.build_auth_url(1, &vec![]) {
        Err(OAuthError::Url(_)) => {}
        other => panic!("expected a url error, got {other:?}"),
    }
}

#[test]
fn percent_encoding_of_components() {
    assert_eq!(percent_encode("read write"), "read%20write");
    assert_eq!(percent_encode("a-b_c.d~e"), "a-b_c.d~e");
    assert_eq!(percent_encode("x/y?z=1&w"), "x%2Fy%3Fz%3D1%26w");
    assert_eq!(percent_encode("é"), "%C3%A9");
    assert_eq!(percent_encode(""), "");
}

#[test]
fn scopes_are_joined_by_single_spaces_in_order() {
    assert_eq!(join_scopes(&vec![]), "");
    assert_eq!(join_scopes(&vec!["one".to_string()]), "one");
    assert_eq!(
        join_scopes(&vec!["b".to_string(), "a".to_string(), "c".to_string()]),
        "b a c"
    );
}

#[test]
fn token_form_fields() {
    let client = OAuthClient::new(config("https://p.example/a"));
    let form = client.token_request_form("abc");
    let expect: Vec<(String, String)> = vec![
        ("grant_type", "authorization_code"),
        ("code", "abc"),
        ("client_id", "my client"),
        ("client_secret", "SECRET-REDACTED"),
        ("redirect_uri", "http://127.0.0.1:7777/oauth/callback"),
    ]
    .into_iter()
    .map(|(a, b)| (a.to_string(), b.to_string()))
    .collect();
    assert_eq!(form, expect);
}

#[test]
fn reply_with_lifetime_sets_expiry() {
    let client = OAuthClient::new(config("https://p.example/a"));
    let b = client
        .token_from_reply(ExchangeReply::Parsed(response(Some(3600), Some("mac"))), 1000)
        .unwrap();
    assert_eq!(b.expires_at, Some(4600));
    assert_eq!(b.token_type, "mac");
    assert_eq!(b.access_token, "at");
    assert_eq!(b.refresh_token.as_deref(), Some("rt"));
    assert_eq!(b.scope.as_deref(), Some("read write"));
}

#[test]
fn reply_without_lifetime_or_type_defaults() {
    let client = OAuthClient::new(config("https://p.example/a"));
    let b = client
        .token_from_reply(ExchangeReply::Parsed(response(None, None)), 1000)
        .unwrap();
    assert_eq!(b.expires_at, None);
    assert_eq!(b.token_type, "Bearer");
    assert_eq!(default_token_type(), "Bearer");
}

#[test]
fn reply_failures_map_to_error_kinds() {
    let client = OAuthClient::new(config("https://p.example/a"));
    match client.token_from_reply(ExchangeReply::Transport("down".to_string()), 0) {
        Err(OAuthError::Http(m)) => assert_eq!(m, "down"),
        other => panic!("{other:?}"),
    }
    match client.token_from_reply(ExchangeReply::Rejected("401".to_string()), 0) {
        Err(OAuthError::Exchange(m)) => assert_eq!(m, "401"),
        other => panic!("{other:?}"),
    }
    match client.token_from_reply(ExchangeReply::Unparseable("eof".to_string()), 0) {
        Err(OAuthError::Exchange(m)) => assert_eq!(m, "eof"),
        other => panic!("{other:?}"),
    }
    match client.token_from_reply(ExchangeReply::Parsed(response(Some(i64::MAX), None)), 10) {
        Err(OAuthError::Exchange(_)) => {}
        other => panic!("{other:?}"),
    }
}

#[test]
fn browser_request_targets_open_auth_with_account_and_url() {
    let cfg = ControlBrowserConfig {
        base_url: "http://127.0.0.1:7780/some/path".to_string(),
    };
    let url = open_auth_url(&cfg, 4021, "https://p.example/a?x=1&y=2").unwrap();
    assert_eq!(
        url,
        "http://127.0.0.1:7780/open-auth?account_id=4021&auth_url=https%3A%2F%2Fp.example%2Fa%3Fx%3D1%26y%3D2"
    );
    let url = open_auth_url(&cfg, 0, "u").unwrap();
    assert!(url.ends_with("?account_id=0&auth_url=u"));
    let bad = ControlBrowserConfig {
        base_url: "nope".to_string(),
    };
    assert!(matches!(
        open_auth_url(&bad, 1, "u"),
        Err(ControlClientError::Url(_))
    ));
}
