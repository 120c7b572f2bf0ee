use vstd::prelude::*;
use vstd::string::*;
use vstd::utf8::encode_utf8;

use crate::ids::{request_id_text, uuid_text};
use crate::model::TokenBundle;

verus! {

/// Settings of the OAuth provider that the router talks to.
#[derive(Clone, Debug)]
pub struct OAuthConfig {
    pub client_id: String,
    pub client_secret: String,
    pub auth_url: String,
    pub token_url: String,
    pub redirect_uri: String,
}

/// A failure of the provider protocol.
#[derive(Clone, Debug)]
pub enum OAuthError {
    Url(String),
    Http(String),
    Exchange(String),
}

impl OAuthError {
    pub open spec fn message_spec(&self) -> Seq<char> {
        match self {
            OAuthError::Url(s) => "invalid url: "@ + s@,
            OAuthError::Http(s) => "http error: "@ + s@,
            OAuthError::Exchange(s) => "token exchange failed: "@ + s@,
        }
    }

    /// The human-readable description of the failure; never empty.
    pub fn message(&self) -> (r: String)
        ensures
            r@ == self.message_spec(),
            r@.len() > 0,
    {
        proof {
            reveal_strlit("invalid url: ");
            reveal_strlit("http error: ");
            reveal_strlit("token exchange failed: ");
        }
        match self {
            OAuthError::Url(s) => String::from_str("invalid url: ").concat(s.as_str()),
            OAuthError::Http(s) => String::from_str("http error: ").concat(s.as_str()),
            OAuthError::Exchange(s) => String::from_str("token exchange failed: ").concat(
                s.as_str(),
            ),
        }
    }
}

/// What came back from the provider's token endpoint, as the transport saw it.
#[derive(Clone, Debug)]
pub enum ExchangeReply {
    /// The request could not be sent or no response arrived.
    Transport(String),
    /// The provider answered with a non-success status.
    Rejected(String),
    /// The body was not a token response.
    Unparseable(String),
    /// A decoded token response.
    Parsed(TokenResponse),
}

/// The provider's token response. `token_type` is `None` when the provider
/// left it out.
#[derive(Clone, Debug)]
pub struct TokenResponse {
    pub access_token: String,
    pub refresh_token: Option<String>,
    pub expires_in: Option<i64>,
    pub token_type: Option<String>,
    pub scope: Option<String>,
}

/// The token type assumed when the provider names none.
pub fn default_token_type() -> (r: String)
    ensures
        r@ == "Bearer"@,
{
    String::from_str("Bearer")
}

pub open spec fn opt_view(o: Option<String>) -> Option<Seq<char>> {
    match o {
        Some(x) => Some(x@),
        None => None,
    }
}

pub open spec fn opt_int(o: Option<i64>) -> Option<int> {
    match o {
        Some(x) => Some(x as int),
        None => None,
    }
}

/// Expiry instant of a token issued at `now` that lives `expires_in` seconds.
pub open spec fn expiry_of(now: i64, expires_in: Option<i64>) -> Option<int> {
    match expires_in {
        Some(secs) => Some(now + secs),
        None => None,
    }
}

pub open spec fn fits_i64(x: int) -> bool {
    i64::MIN <= x <= i64::MAX
}

/// Characters that stand for themselves in a percent-encoded component.
pub open spec fn is_unreserved(b: u8) -> bool {
    (0x41 <= b <= 0x5a) || (0x61 <= b <= 0x7a) || (0x30 <= b <= 0x39) || b == 0x2d || b == 0x2e
        || b == 0x5f || b == 0x7e
}

pub open spec fn hex_upper(n: u8) -> u8 {
    if n < 10 {
        (0x30 + n) as u8
    } else {
        (0x41 + n - 10) as u8
    }
}

pub open spec fn encode_byte(b: u8) -> Seq<u8> {
    if is_unreserved(b) {
        seq![b]
    } else {
        seq![0x25u8, hex_upper(b / 16), hex_upper(b % 16)]
    }
}

/// RFC 3986 percent-encoding: every byte outside the unreserved set becomes
/// `%XX` with upper-case hex digits.
pub open spec fn percent_encoded(bs: Seq<u8>) -> Seq<u8>
    decreases bs.len(),
{
    if bs.len() == 0 {
        seq![]
    } else {
        percent_encoded(bs.drop_last()) + encode_byte(bs.last())
    }
}

pub open spec fn ascii_chars(bs: Seq<u8>) -> Seq<char> {
    bs.map_values(|b: u8| b as char)
}

/// The percent-encoding of the UTF-8 bytes of `s`, as text.
pub open spec fn encode_component(s: Seq<char>) -> Seq<char> {
    ascii_chars(percent_encoded(encode_utf8(s)))
}

/// The scopes joined by single spaces, in order.
pub open spec fn joined_scopes(scopes: Seq<String>) -> Seq<char>
    decreases scopes.len(),
{
    if scopes.len() == 0 {
        seq![]
    } else if scopes.len() == 1 {
        scopes[0]@
    } else {
        joined_scopes(scopes.drop_last()) + " "@ + scopes.last()@
    }
}

/// The query parameters of the authorization URL.
pub open spec fn auth_query(cfg: OAuthConfig, state: u128, scopes: Seq<String>) -> Seq<char> {
    "response_type=code&client_id="@ + encode_component(cfg.client_id@) + "&redirect_uri="@
        + encode_component(cfg.redirect_uri@) + "&scope="@ + encode_component(
        joined_scopes(scopes),
    ) + "&state="@ + encode_component(uuid_text(state))
}

/// The query that results from adding `q` to the query a URL already has.
pub open spec fn extended_query(existing: Option<Seq<char>>, q: Seq<char>) -> Seq<char> {
    match existing {
        Some(e) => if e.len() > 0 {
            e + "&"@ + q
        } else {
            q
        },
        None => q,
    }
}

pub const URL_PART_LIMIT: usize = 100_000_000;

/// Parses `s` as an absolute URL, giving `None` when it is malformed, and else
/// the URL's query component, if it has one.
pub uninterp spec fn parsed_query(s: Seq<char>) -> Option<Option<Seq<char>>>;

/// The serialization of URL `s` with its query replaced by `q`.
pub uninterp spec fn with_query(s: Seq<char>, q: Seq<char>) -> Seq<char>;

/// Relies on url::Url::parse, which accepts or rejects `s` and exposes the
/// query component of what it accepted through `Url::query`.
#[verifier::external_body]
pub(crate) fn url_query(s: &str) -> (r: Result<Option<String>, String>)
    ensures
        match r {
            Ok(q) => parsed_query(s@) == Some(opt_view(q)),
            Err(_) => parsed_query(s@) is None,
        },
{
    match url::Url::parse(s) {
        Ok(u) => Ok(u.query().map(|q| q.to_string())),
        Err(e) => Err(e.to_string()),
    }
}

/// Relies on url::Url::parse and url::Url::set_query: the URL `s` with query `q`.
#[verifier::external_body]
pub(crate) fn url_with_query(s: &str, q: &str) -> (r: String)
    requires
        parsed_query(s@) is Some,
        s@.len() < URL_PART_LIMIT,
        q@.len() < URL_PART_LIMIT,
    ensures
        r@ == with_query(s@, q@),
{
    match url::Url::parse(s) {
        Ok(mut u) => {
            u.set_query(Some(q));
            u.to_string()
        },
        Err(_) => String::new(),
    }
}

/// Relies on String::from_utf8: ASCII bytes are valid UTF-8 and each stands
/// for the character of the same code.
#[verifier::external_body]
fn ascii_string(bytes: Vec<u8>) -> (r: String)
    requires
        forall|i: int| 0 <= i < bytes@.len() ==> bytes@[i] < 128,
    ensures
        r@ == ascii_chars(bytes@),
{
    String::from_utf8(bytes).unwrap_or_default()
}

/// Each byte's encoding is ASCII.
proof fn lemma_encode_byte_ascii(b: u8)
    ensures
        forall|i: int| 0 <= i < encode_byte(b).len() ==> encode_byte(b)[i] < 128,
{
}

/// The upper-case hex digit of `n`, as an ASCII byte.
fn hex_digit(n: u8) -> (r: u8)
    requires
        n < 16,
    ensures
        r == hex_upper(n),
{
    if n < 10 {
        0x30 + n
    } else {
        0x41 + n - 10
    }
}

/// The percent-encoding of `s`.
pub fn percent_encode(s: &str) -> (r: String)
    ensures
        r@ == encode_component(s@),
{
    let bytes = s.as_bytes();
    let mut out: Vec<u8> = Vec::new();
    let mut i: usize = 0;
    while i < bytes.len()
        invariant
            i <= bytes@.len(),
            bytes@ == encode_utf8(s@),
            out@ == percent_encoded(bytes@.subrange(0, i as int)),
            forall|k: int| 0 <= k < out@.len() ==> out@[k] < 128,
        decreases bytes@.len() - i,
    {
        let b: u8 = bytes[i];
        let ghost before = out@;
        if (0x41 <= b && b <= 0x5a) || (0x61 <= b && b <= 0x7a) || (0x30 <= b && b <= 0x39) || b
            == 0x2d || b == 0x2e || b == 0x5f || b == 0x7e {
            out.push(b);
        } else {
            out.push(0x25);
            out.push(hex_digit(b / 16));
            out.push(hex_digit(b % 16));
        }
        proof {
            let pre = bytes@.subrange(0, i as int);
            let next = bytes@.subrange(0, i + 1);
            assert(next.drop_last() =~= pre);
            assert(next.last() == b);
            assert(out@ =~= before + encode_byte(b));
            lemma_encode_byte_ascii(b);
        }
        i = i + 1;
    }
    assert(bytes@.subrange(0, bytes@.len() as int) =~= bytes@);
    ascii_string(out)
}

/// The scopes joined by single spaces.
pub fn join_scopes(scopes: &Vec<String>) -> (r: String)
    ensures
        r@ == joined_scopes(scopes@),
{
    let mut out = String::new();
    let mut i: usize = 0;
    while i < scopes.len()
        invariant
            i <= scopes@.len(),
            out@ == joined_scopes(scopes@.subrange(0, i as int)),
        decreases scopes@.len() - i,
    {
        let ghost pre = scopes@.subrange(0, i as int);
        let ghost next = scopes@.subrange(0, i + 1);
        assert(next.drop_last() =~= pre);
        if i == 0 {
            out = scopes[i].clone();
            assert(next.len() == 1);
        } else {
            out.append(" ");
            out.append(scopes[i].as_str());
        }
        i = i + 1;
    }
    assert(scopes@.subrange(0, scopes@.len() as int) =~= scopes@);
    out
}

/// Client-side protocol logic for the provider: the authorization URL, the
/// form posted to the token endpoint, and the reading of its reply.
#[derive(Clone, Debug)]
pub struct OAuthClient {
    pub cfg: OAuthConfig,
}

impl OAuthClient {
    /// A client for the provider that `cfg` describes.
    pub fn new(cfg: OAuthConfig) -> (r: OAuthClient)
        ensures
            r.cfg == cfg,
    {
        OAuthClient { cfg }
    }

    /// The provider's authorization URL for request `state`: the configured
    /// endpoint with `response_type`, `client_id`, `redirect_uri`, `scope`
    /// (the scopes space-joined) and `state` appended to its query, each value
    /// percent-encoded. Fails with `Url` when the endpoint is not a URL, or
    /// when it or the query is too long to serialize.
    pub fn build_auth_url(&self, state: u128, scopes: &Vec<String>) -> (r: Result<
        String,
        OAuthError,
    >)
        ensures
            parsed_query(self.cfg.auth_url@) is None ==> r matches Err(OAuthError::Url(_)),
            match r {
                Ok(u) => parsed_query(self.cfg.auth_url@) matches Some(existing) && u@ == with_query(
                    self.cfg.auth_url@,
                    extended_query(existing, auth_query(self.cfg, state, scopes@)),
                ),
                Err(e) => e is Url,
            },
            (parsed_query(self.cfg.auth_url@) is Some && self.cfg.auth_url@.len() < URL_PART_LIMIT
                && extended_query(
                parsed_query(self.cfg.auth_url@).unwrap(),
                auth_query(self.cfg, state, scopes@),
            ).len() < URL_PART_LIMIT) ==> r is Ok,
    {
        let existing = match url_query(self.cfg.auth_url.as_str()) {
            Ok(q) => q,
            Err(msg) => {
                return Err(OAuthError::Url(msg));
            },
        };
        let scope = join_scopes(scopes);
        let id_text = request_id_text(state);
        let mut q = String::from_str("response_type=code&client_id=");
        q.append(percent_encode(self.cfg.client_id.as_str()).as_str());
        q.append("&redirect_uri=");
        q.append(percent_encode(self.cfg.redirect_uri.as_str()).as_str());
        q.append("&scope=");
        q.append(percent_encode(scope.as_str()).as_str());
        q.append("&state=");
        q.append(percent_encode(id_text.as_str()).as_str());
        let full = match existing {
            Some(e) => if e.as_str().is_empty() {
                q
            } else {
                e.concat("&").concat(q.as_str())
            },
            None => q,
        };
        if self.cfg.auth_url.as_str().unicode_len() >= URL_PART_LIMIT || full.as_str().unicode_len()
            >= URL_PART_LIMIT {
            return Err(OAuthError::Url(String::from_str("url too long")));
        }
        Ok(url_with_query(self.cfg.auth_url.as_str(), full.as_str()))
    }

    /// The form fields of an `authorization_code` grant for `code`.
    pub fn token_request_form(&self, code: &str) -> (r: Vec<(String, String)>)
        ensures
            r@.len() == 5,
            r@[0].0@ == "grant_type"@ && r@[0].1@ == "authorization_code"@,
            r@[1].0@ == "code"@ && r@[1].1@ == code@,
            r@[2].0@ == "client_id"@ && r@[2].1@ == self.cfg.client_id@,
            r@[3].0@ == "client_secret"@ && r@[3].1@ == self.cfg.client_secret@,
            r@[4].0@ == "redirect_uri"@ && r@[4].1@ == self.cfg.redirect_uri@,
    {
        let mut v: Vec<(String, String)> = Vec::new();
        v.push((String::from_str("grant_type"), String::from_str("authorization_code")));
        v.push((String::from_str("code"), String::from_str(code)));
        v.push((String::from_str("client_id"), self.cfg.client_id.clone()));
        v.push((String::from_str("client_secret"), self.cfg.client_secret.clone()));
        v.push((String::from_str("redirect_uri"), self.cfg.redirect_uri.clone()));
        v
    }

    /// Reads the token endpoint's reply at time `now`. A transport failure is
    /// `Http`; a rejected or unreadable reply is `Exchange`; a token response
    /// becomes a bundle that expires `expires_in` seconds after `now` (never,
    /// when no lifetime is given), typed `Bearer` unless the provider says
    /// otherwise. A lifetime whose expiry does not fit a timestamp is an
    /// `Exchange` failure.
    pub fn token_from_reply(&self, reply: ExchangeReply, now: i64) -> (r: Result<
        TokenBundle,
        OAuthError,
    >)
        ensures
            reply matches ExchangeReply::Transport(m) ==> r == Err::<TokenBundle, OAuthError>(
                OAuthError::Http(m),
            ),
            reply matches ExchangeReply::Rejected(m) ==> r == Err::<TokenBundle, OAuthError>(
                OAuthError::Exchange(m),
            ),
            reply matches ExchangeReply::Unparseable(m) ==> r == Err::<TokenBundle, OAuthError>(
                OAuthError::Exchange(m),
            ),
            reply matches ExchangeReply::Parsed(t) ==> {
                match expiry_of(now, t.expires_in) {
                    Some(e) if !fits_i64(e) => r is Err && r->Err_0 is Exchange,
                    _ => r matches Ok(b) && b.access_token == t.access_token && b.refresh_token
                        == t.refresh_token && b.scope == t.scope && opt_int(b.expires_at) == expiry_of(now, t.expires_in) && (match t.token_type {
                        Some(tt) => b.token_type == tt,
                        None => b.token_type@ == "Bearer"@,
                    }),
                }
            },
    {
        match reply {
            ExchangeReply::Transport(m) => Err(OAuthError::Http(m)),
            ExchangeReply::Rejected(m) => Err(OAuthError::Exchange(m)),
            ExchangeReply::Unparseable(m) => Err(OAuthError::Exchange(m)),
            ExchangeReply::Parsed(t) => {
                let expires_at = match t.expires_in {
                    Some(secs) => match now.checked_add(secs) {
                        Some(e) => Some(e),
                        None => {
                            return Err(
                                OAuthError::Exchange(String::from_str("expires_in out of range")),
                            );
                        },
                    },
                    None => None,
                };
                let token_type = match t.token_type {
                    Some(tt) => tt,
                    None => default_token_type(),
                };
                Ok(
                    TokenBundle {
                        access_token: t.access_token,
                        refresh_token: t.refresh_token,
                        expires_at,
                        token_type,
                        scope: t.scope,
                    },
                )
            },
        }
    }
}

} // verus!
