use vstd::prelude::*;
use vstd::string::*;

use crate::config::{or_default, value_or};
use crate::ids::now_unix_seconds;
use crate::model::{RequestStatus, TokenBundle};

verus! {

/// A failure seen by the client.
#[derive(Clone, Debug)]
pub enum AuthClientError {
    Http(String),
    Router(String),
    Denied,
    Timeout,
    Cache(String),
    Config(String),
}

impl AuthClientError {
    pub open spec fn message_spec(&self) -> Seq<char> {
        match self {
            AuthClientError::Http(s) => "HTTP error: "@ + s@,
            AuthClientError::Router(s) => "Router returned error: "@ + s@,
            AuthClientError::Denied => "Request was denied or cancelled by user"@,
            AuthClientError::Timeout => "Timed out waiting for authorization"@,
            AuthClientError::Cache(s) => "Cache error: "@ + s@,
            AuthClientError::Config(s) => "Invalid configuration: "@ + s@,
        }
    }

    /// The human-readable description of the failure.
    pub fn message(&self) -> (r: String)
        ensures
            r@ == self.message_spec(),
    {
        match self {
            AuthClientError::Http(s) => String::from_str("HTTP error: ").concat(s.as_str()),
            AuthClientError::Router(s) => String::from_str("Router returned error: ").concat(
                s.as_str(),
            ),
            AuthClientError::Denied => String::from_str("Request was denied or cancelled by user"),
            AuthClientError::Timeout => String::from_str("Timed out waiting for authorization"),
            AuthClientError::Cache(s) => String::from_str("Cache error: ").concat(s.as_str()),
            AuthClientError::Config(s) => String::from_str("Invalid configuration: ").concat(
                s.as_str(),
            ),
        }
    }
}

/// Settings of a client. Durations are in milliseconds.
#[derive(Clone, Debug)]
pub struct ClientConfig {
    pub router_base_url: String,
    pub client_name: String,
    pub hostname: String,
    pub cache_path: Option<String>,
    pub account_namespace: Option<String>,
    pub poll_interval_ms: u64,
    pub max_wait_ms: u64,
}

/// The settings that a client's environment supplies, each `None` when unset.
#[derive(Clone, Debug)]
pub struct ClientSettings {
    pub router_url: Option<String>,
    pub client_name: Option<String>,
    pub hostname: Option<String>,
    pub computer_name: Option<String>,
    pub account_namespace: Option<String>,
    pub profile: Option<String>,
}

pub const DEFAULT_POLL_INTERVAL_MS: u64 = 2000;

pub const DEFAULT_MAX_WAIT_MS: u64 = 300_000;

impl ClientConfig {
    /// The client's configuration from its settings: the router defaults to
    /// the local one, the client name to `default-cli`, the hostname to the
    /// computer name and then `unknown-host`, the namespace to the profile;
    /// no explicit cache path; polls every two seconds for at most five
    /// minutes.
    pub fn from_settings(s: ClientSettings) -> (r: ClientConfig)
        ensures
            r.router_base_url@ == or_default(s.router_url, "http://127.0.0.1:7777"@),
            r.client_name@ == or_default(s.client_name, "default-cli"@),
            r.hostname@ == (match s.hostname {
                Some(h) => h@,
                None => or_default(s.computer_name, "unknown-host"@),
            }),
            r.account_namespace == (match s.account_namespace {
                Some(ns) => Some(ns),
                None => s.profile,
            }),
            r.cache_path is None,
            r.poll_interval_ms == DEFAULT_POLL_INTERVAL_MS,
            r.max_wait_ms == DEFAULT_MAX_WAIT_MS,
    {
        let hostname = match s.hostname {
            Some(h) => h,
            None => value_or(s.computer_name, "unknown-host"),
        };
        let account_namespace = match s.account_namespace {
            Some(ns) => Some(ns),
            None => s.profile,
        };
        ClientConfig {
            router_base_url: value_or(s.router_url, "http://127.0.0.1:7777"),
            client_name: value_or(s.client_name, "default-cli"),
            hostname,
            cache_path: None,
            account_namespace,
            poll_interval_ms: DEFAULT_POLL_INTERVAL_MS,
            max_wait_ms: DEFAULT_MAX_WAIT_MS,
        }
    }
}

/// Seconds before expiry from which a cached token is no longer used.
pub const EXPIRY_MARGIN_SECS: i64 = 30;

/// A token is usable at `now` when it never expires, or when its expiry less
/// the safety margin is still ahead of `now`.
pub open spec fn valid_at(token: TokenBundle, now: i64) -> bool {
    match token.expires_at {
        None => true,
        Some(e) => e - EXPIRY_MARGIN_SECS > now,
    }
}

/// Whether `token` may still be handed out at time `now`.
pub fn is_token_valid_at(token: &TokenBundle, now: i64) -> (r: bool)
    ensures
        r == valid_at(*token, now),
{
    match token.expires_at {
        None => true,
        Some(e) => (e as i128) - (EXPIRY_MARGIN_SECS as i128) > now as i128,
    }
}

/// Whether `token` may still be handed out now, by the system clock.
pub fn is_token_valid(token: &TokenBundle) -> (r: bool)
    ensures
        token.expires_at is None ==> r,
        exists|now: i64| r == valid_at(*token, now),
{
    let now: i64 = now_unix_seconds();
    is_token_valid_at(token, now)
}

pub open spec fn is_safe_char(c: char) -> bool {
    ('a' <= c <= 'z') || ('A' <= c <= 'Z') || ('0' <= c <= '9') || c == '-' || c == '_'
}

pub open spec fn safe_chars(s: Seq<char>) -> Seq<char> {
    s.map_values(|c: char| if is_safe_char(c) { c } else { '_' })
}

/// `s` as a path component: characters other than ASCII letters, digits, `-`
/// and `_` become `_`, and the empty result becomes `_`.
pub open spec fn sanitized(s: Seq<char>) -> Seq<char> {
    if s.len() == 0 {
        seq!['_']
    } else {
        safe_chars(s)
    }
}

/// Relies on `String: FromIterator<char>`: the characters in order.
#[verifier::external_body]
pub(crate) fn string_of_chars(v: &Vec<char>) -> (r: String)
    ensures
        r@ == v@,
{
    v.iter().collect()
}

/// The namespace `s` made safe as a single path component.
pub fn sanitize_component(s: &str) -> (r: String)
    ensures
        r@ == sanitized(s@),
{
    let n: usize = s.unicode_len();
    let mut out: Vec<char> = Vec::new();
    let mut i: usize = 0;
    while i < n
        invariant
            n == s@.len(),
            i <= n,
            out@ == safe_chars(s@.subrange(0, i as int)),
        decreases n - i,
    {
        let c = s.get_char(i);
        if ('a' <= c && c <= 'z') || ('A' <= c && c <= 'Z') || ('0' <= c && c <= '9') || c == '-'
            || c == '_' {
            out.push(c);
        } else {
            out.push('_');
        }
        assert(out@ =~= safe_chars(s@.subrange(0, i + 1)));
        i = i + 1;
    }
    assert(s@.subrange(0, n as int) =~= s@);
    if n == 0 {
        let mut v: Vec<char> = Vec::new();
        v.push('_');
        assert(v@ =~= seq!['_']);
        string_of_chars(&v)
    } else {
        string_of_chars(&out)
    }
}

/// Where the token cache lives: a path given outright, or a namespace under
/// the platform's configuration directory.
#[derive(Clone, Debug)]
pub enum CacheLocation {
    Explicit(String),
    Namespaced(String),
}

/// The cache namespace before sanitizing: the explicit one, else
/// `client_name-hostname`.
pub open spec fn raw_namespace(cfg: ClientConfig) -> Seq<char> {
    match cfg.account_namespace {
        Some(ns) => ns@,
        None => cfg.client_name@ + "-"@ + cfg.hostname@,
    }
}

/// An explicit cache path wins; otherwise the sanitized namespace.
pub fn cache_location(cfg: &ClientConfig) -> (r: CacheLocation)
    ensures
        match cfg.cache_path {
            Some(p) => r matches CacheLocation::Explicit(q) && q == p,
            None => r matches CacheLocation::Namespaced(ns) && ns@ == sanitized(
                raw_namespace(*cfg),
            ),
        },
{
    match &cfg.cache_path {
        Some(p) => CacheLocation::Explicit(p.clone()),
        None => {
            let ns = match &cfg.account_namespace {
                Some(ns) => ns.clone(),
                None => cfg.client_name.clone().concat("-").concat(cfg.hostname.as_str()),
            };
            CacheLocation::Namespaced(sanitize_component(ns.as_str()))
        },
    }
}

/// `s` without its trailing slashes.
pub open spec fn without_trailing_slashes(s: Seq<char>) -> Seq<char>
    decreases s.len(),
{
    if s.len() > 0 && s.last() == '/' {
        without_trailing_slashes(s.drop_last())
    } else {
        s
    }
}

/// Trailing slashes beyond `n` do not change the trimmed text.
proof fn lemma_trim_prefix(s: Seq<char>, n: int)
    requires
        0 <= n <= s.len(),
        forall|j: int| n <= j < s.len() ==> s[j] == '/',
    ensures
        without_trailing_slashes(s) == without_trailing_slashes(s.subrange(0, n)),
    decreases s.len() - n,
{
    if n < s.len() {
        assert(s.last() == '/');
        assert(s.drop_last().subrange(0, n) =~= s.subrange(0, n));
        lemma_trim_prefix(s.drop_last(), n);
    } else {
        assert(s.subrange(0, n) =~= s);
    }
}

/// The router URL of `path` (which starts with `/`) under base `base`.
pub fn router_endpoint(base: &str, path: &str) -> (r: String)
    ensures
        r@ == without_trailing_slashes(base@) + path@,
{
    let mut n: usize = base.unicode_len();
    while n > 0 && base.get_char(n - 1) == '/'
        invariant
            n <= base@.len(),
            forall|j: int| n <= j < base@.len() ==> base@[j] == '/',
        decreases n,
    {
        n = n - 1;
    }
    proof {
        lemma_trim_prefix(base@, n as int);
        let p = base@.subrange(0, n as int);
        if n > 0 {
            assert(p.last() != '/');
        }
    }
    String::from_str(base.substring_char(0, n)).concat(path)
}

/// The URL at which requests are created.
pub fn create_url(base: &str) -> (r: String)
    ensures
        r@ == without_trailing_slashes(base@) + "/v1/token-requests"@,
{
    router_endpoint(base, "/v1/token-requests")
}

/// The URL at which request `request_id` is polled.
pub fn status_url(base: &str, request_id: &str) -> (r: String)
    ensures
        r@ == without_trailing_slashes(base@) + "/v1/token-requests/"@ + request_id@ + "/status"@,
{
    let path = String::from_str("/v1/token-requests/").concat(request_id).concat("/status");
    let r = router_endpoint(base, path.as_str());
    assert(r@ =~= without_trailing_slashes(base@) + "/v1/token-requests/"@ + request_id@
        + "/status"@);
    r
}

/// One status poll as the client received it.
#[derive(Clone, Debug)]
pub enum StatusReply {
    /// The poll failed in transport, status or decoding, with its message.
    Failed(String),
    /// A decoded status.
    Body { status: RequestStatus, token: Option<TokenBundle>, error: Option<String> },
}

/// What the polling loop does next.
#[derive(Debug)]
pub enum PollAction {
    FetchStatus,
    Sleep(u64),
    Finish(Result<TokenBundle, AuthClientError>),
}

/// Before each poll: once more than `max_wait_ms` has elapsed the wait ends
/// in a timeout, whatever the router's state; otherwise the status is fetched.
pub fn poll_tick(cfg: &ClientConfig, elapsed_ms: u64) -> (r: PollAction)
    ensures
        elapsed_ms > cfg.max_wait_ms ==> r matches PollAction::Finish(Err(AuthClientError::Timeout)),
        elapsed_ms <= cfg.max_wait_ms ==> r is FetchStatus,
{
    if elapsed_ms > cfg.max_wait_ms {
        PollAction::Finish(Err(AuthClientError::Timeout))
    } else {
        PollAction::FetchStatus
    }
}

/// After each poll: a failed poll ends the wait with `Http`; an approval ends
/// it with the token, or with `Router` when none came; a denial or
/// cancellation ends it with `Denied`; an error ends it with `Router` and the
/// router's message (`unknown error` if none); a pending or in-progress
/// request means sleeping for the poll interval.
pub fn poll_reply(cfg: &ClientConfig, reply: StatusReply) -> (r: PollAction)
    ensures
        match reply {
            StatusReply::Failed(m) => r matches PollAction::Finish(Err(AuthClientError::Http(x)))
                && x == m,
            StatusReply::Body { status, token, error } => match status {
                RequestStatus::Approved => match token {
                    Some(t) => r matches PollAction::Finish(Ok(x)) && x == t,
                    None => r matches PollAction::Finish(Err(AuthClientError::Router(x))) && x@
                        == "approved but no token present"@,
                },
                RequestStatus::Denied | RequestStatus::Cancelled => r matches PollAction::Finish(
                    Err(AuthClientError::Denied),
                ),
                RequestStatus::Error => r matches PollAction::Finish(
                    Err(AuthClientError::Router(x)),
                ) && (match error {
                    Some(e) => x == e,
                    None => x@ == "unknown error"@,
                }),
                RequestStatus::Pending | RequestStatus::InProgress => r matches PollAction::Sleep(
                    d,
                ) && d == cfg.poll_interval_ms,
            },
        },
{
    match reply {
        StatusReply::Failed(m) => PollAction::Finish(Err(AuthClientError::Http(m))),
        StatusReply::Body { status, token, error } => match status {
            RequestStatus::Approved => match token {
                Some(t) => PollAction::Finish(Ok(t)),
                None => PollAction::Finish(
                    Err(AuthClientError::Router(String::from_str("approved but no token present"))),
                ),
            },
            RequestStatus::Denied | RequestStatus::Cancelled => PollAction::Finish(
                Err(AuthClientError::Denied),
            ),
            RequestStatus::Error => PollAction::Finish(
                Err(
                    AuthClientError::Router(
                        match error {
                            Some(e) => e,
                            None => String::from_str("unknown error"),
                        },
                    ),
                ),
            ),
            RequestStatus::Pending | RequestStatus::InProgress => PollAction::Sleep(
                cfg.poll_interval_ms,
            ),
        },
    }
}

} // verus!
