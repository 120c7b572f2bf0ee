use vstd::prelude::*;
use vstd::string::*;

use crate::oauth::OAuthConfig;

verus! {

/// Where the browser control surface listens.
#[derive(Clone, Debug)]
pub struct ControlBrowserConfig {
    pub base_url: String,
}

/// Settings of the router.
#[derive(Clone, Debug)]
pub struct RouterConfig {
    pub bind_addr: String,
    pub oauth: OAuthConfig,
    pub control_browser: ControlBrowserConfig,
}

/// The settings that the router's environment supplies, each `None` when unset.
#[derive(Clone, Debug)]
pub struct RouterSettings {
    pub bind_addr: Option<String>,
    pub client_id: Option<String>,
    pub client_secret: Option<String>,
    pub auth_url: Option<String>,
    pub token_url: Option<String>,
    pub redirect_uri: Option<String>,
    pub control_browser_url: Option<String>,
}

/// `given` when set, else `fallback`.
pub open spec fn or_default(given: Option<String>, fallback: Seq<char>) -> Seq<char> {
    match given {
        Some(s) => s@,
        None => fallback,
    }
}

/// `given` when set, else a copy of `fallback`.
pub fn value_or(given: Option<String>, fallback: &str) -> (r: String)
    ensures
        r@ == or_default(given, fallback@),
{
    match given {
        Some(s) => s,
        None => String::from_str(fallback),
    }
}

impl RouterConfig {
    /// The router's configuration from its settings: unset OAuth credentials
    /// and endpoints are empty, and the bind address, redirect URI and browser
    /// control URL fall back to local defaults.
    pub fn from_settings(s: RouterSettings) -> (r: RouterConfig)
        ensures
            r.bind_addr@ == or_default(s.bind_addr, "127.0.0.1:7777"@),
            r.oauth.client_id@ == or_default(s.client_id, seq![]),
            r.oauth.client_secret@ == or_default(s.client_secret, seq![]),
            r.oauth.auth_url@ == or_default(s.auth_url, seq![]),
            r.oauth.token_url@ == or_default(s.token_url, seq![]),
            r.oauth.redirect_uri@ == or_default(
                s.redirect_uri,
                "http://127.0.0.1:7777/oauth/callback"@,
            ),
            r.control_browser.base_url@ == or_default(
                s.control_browser_url,
                "http://127.0.0.1:7780"@,
            ),
    {
        proof {
            reveal_strlit("");
        }
        RouterConfig {
            bind_addr: value_or(s.bind_addr, "127.0.0.1:7777"),
            oauth: OAuthConfig {
                client_id: value_or(s.client_id, ""),
                client_secret: value_or(s.client_secret, ""),
                auth_url: value_or(s.auth_url, ""),
                token_url: value_or(s.token_url, ""),
                redirect_uri: value_or(s.redirect_uri, "http://127.0.0.1:7777/oauth/callback"),
            },
            control_browser: ControlBrowserConfig {
                base_url: value_or(s.control_browser_url, "http://127.0.0.1:7780"),
            },
        }
    }
}

} // verus!
