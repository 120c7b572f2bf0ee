use auth_broker::client::{ClientConfig, ClientSettings};
use auth_broker::config::{RouterConfig, RouterSettings};

fn s(v: &str) -> Option<String> {
    Some(v.to_string())
}

#[test]
fn router_defaults_when_nothing_is_set() {
    let cfg = RouterConfig::from_settings(RouterSettings {
        bind_addr: None,
        client_id: None,
        client_secret: None,
        auth_url: None,
        token_url: None,
        redirect_uri: None,
        control_browser_url: None,
    });
    assert_eq!(cfg.bind_addr, "127.0.0.1:7777");
    assert_eq!(cfg.oauth.client_id, "");
    assert_eq!(cfg.oauth.client_secret, "");
    assert_eq!(cfg.oauth.auth_url, "");
    assert_eq!(cfg.oauth.token_url, "");
    assert_eq!(cfg.oauth.redirect_uri, "http://127.0.0.1:7777/oauth/callback");
    assert_eq!(cfg.control_browser.base_url, "http://127.0.0.1:7780");
}

#[test]
fn router_settings_override_defaults() {
    let cfg = RouterConfig::from_settings(RouterSettings {
        bind_addr: s("0.0.0.0:80"),
        client_id: s("id"),
        client_secret: s("SECRET-REDACTED"),
        auth_url: s("https://p/a"),
        token_url: s("https://p/t"),
        redirect_uri: s("https://r/cb"),
        control_browser_url: s("http://c"),
    });
    assert_eq!(cfg.bind_addr, "0.0.0.0:80");
    assert_eq!(cfg.oauth.client_id, "id");
    assert_eq!(cfg.oauth.auth_url, "https://p/a");
    assert_eq!(cfg.oauth.token_url, "https://p/t");
    assert_eq!(cfg.oauth.redirect_uri, "https://r/cb");
    assert_eq!(cfg.control_browser.base_url, "http://c");
}

#[test]
fn client_defaults_and_fallbacks() {
    let none = ClientSettings {
        router_url: None,
        client_name: None,
        hostname: None,
        computer_name: None,
        account_namespace: None,
        profile: None,
    };
    let cfg = ClientConfig::from_settings(none.clone());
    assert_eq!(cfg.router_base_url, "http://127.0.0.1:7777");
    assert_eq!(cfg.client_name, "default-cli");
    assert_eq!(cfg.hostname, "unknown-host");
    assert_eq!(cfg.account_namespace, None);
    assert_eq!(cfg.cache_path, None);
    assert_eq!(cfg.poll_interval_ms, 2000);
    assert_eq!(cfg.max_wait_ms, 300_000);

    let cfg = ClientConfig::from_settings(ClientSettings {
        computer_name: s("PC"),
        profile: s("work"),
        ..none.clone()
    });
    assert_eq!(cfg.hostname, "PC");
    assert_eq!(cfg.account_namespace.as_deref(), Some("work"));

    let cfg = ClientConfig::from_settings(ClientSettings {
        hostname: s("box"),
        computer_name: s("PC"),
        account_namespace: s("ns"),
        profile: s("work"),
        ..none
    });
    assert_eq!(cfg.hostname, "box");
    assert_eq!(cfg.account_namespace.as_deref(), Some("ns"));
}
