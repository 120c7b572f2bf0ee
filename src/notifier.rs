use vstd::prelude::*;
use vstd::string::*;

use crate::client::string_of_chars;
use crate::config::ControlBrowserConfig;
use crate::lifecycle::ControlClientError;
use crate::oauth::{
    encode_component, extended_query, parsed_query, url_query, url_with_query, with_query,
    URL_PART_LIMIT,
};

verus! {

/// The URL `s` with its path replaced by `p`, or `None` when `s` is not a URL.
pub uninterp spec fn with_path(s: Seq<char>, p: Seq<char>) -> Option<Seq<char>>;

/// Relies on url::Url::parse and url::Url::set_path: the URL `s` with path
/// `p`, or the parser's message.
#[verifier::external_body]
fn url_with_path(s: &str, p: &str) -> (r: Result<String, String>)
    requires
        s@.len() < URL_PART_LIMIT,
        p@.len() < URL_PART_LIMIT,
    ensures
        match r {
            Ok(u) => with_path(s@, p@) == Some(u@),
            Err(_) => with_path(s@, p@) is None,
        },
{
    match url::Url::parse(s) {
        Ok(mut u) => {
            u.set_path(p);
            Ok(u.to_string())
        },
        Err(e) => Err(e.to_string()),
    }
}

pub open spec fn digit_char(d: nat) -> char {
    ((0x30 + d) as u8) as char
}

/// The decimal text of `n`, without leading zeros.
pub open spec fn decimal(n: nat) -> Seq<char>
    decreases n,
{
    if n < 10 {
        seq![digit_char(n)]
    } else {
        decimal(n / 10) + seq![digit_char(n % 10)]
    }
}

/// Appends the decimal text of `n` to `out`.
fn push_decimal(n: u32, out: &mut Vec<char>)
    ensures
        final(out)@ == old(out)@ + decimal(n as nat),
    decreases n,
{
    if n >= 10 {
        push_decimal(n / 10, out);
    }
    let d: u8 = (n % 10) as u8;
    out.push((0x30u8 + d) as char);
    assert(final(out)@ =~= old(out)@ + decimal(n as nat));
}

/// The query that asks the browser control surface to show `auth_url` for
/// `account_id`.
pub open spec fn open_auth_query(account_id: u32, auth_url: Seq<char>) -> Seq<char> {
    "account_id="@ + decimal(account_id as nat) + "&auth_url="@ + encode_component(auth_url)
}

/// The browser control request that shows `auth_url` for `account_id`: the
/// configured base URL with path `/open-auth` and the account and URL added to
/// its query. Fails with `Url` exactly when the base is not a URL or it or the
/// result would be too long to serialize.
pub fn open_auth_url(cfg: &ControlBrowserConfig, account_id: u32, auth_url: &str) -> (r: Result<
    String,
    ControlClientError,
>)
    ensures
        with_path(cfg.base_url@, "/open-auth"@) is None ==> r matches Err(
            ControlClientError::Url(_),
        ),
        (cfg.base_url@.len() < URL_PART_LIMIT && with_path(cfg.base_url@, "/open-auth"@) is Some
            && parsed_query(with_path(cfg.base_url@, "/open-auth"@).unwrap()) is Some
            && with_path(cfg.base_url@, "/open-auth"@).unwrap().len() < URL_PART_LIMIT
            && extended_query(
            parsed_query(with_path(cfg.base_url@, "/open-auth"@).unwrap()).unwrap(),
            open_auth_query(account_id, auth_url@),
        ).len() < URL_PART_LIMIT) ==> r is Ok,
        match r {
            Ok(u) => with_path(cfg.base_url@, "/open-auth"@) matches Some(b) && parsed_query(b)
                matches Some(existing) && u@ == with_query(
                b,
                extended_query(existing, open_auth_query(account_id, auth_url@)),
            ),
            Err(e) => e is Url,
        },
{
    if cfg.base_url.as_str().unicode_len() >= URL_PART_LIMIT {
        return Err(ControlClientError::Url(String::from_str("url too long")));
    }
    proof {
        reveal_strlit("/open-auth");
    }
    let base = match url_with_path(cfg.base_url.as_str(), "/open-auth") {
        Ok(b) => b,
        Err(msg) => {
            return Err(ControlClientError::Url(msg));
        },
    };
    let existing = match url_query(base.as_str()) {
        Ok(q) => q,
        Err(msg) => {
            return Err(ControlClientError::Url(msg));
        },
    };
    let mut digits: Vec<char> = Vec::new();
    push_decimal(account_id, &mut digits);
    assert(digits@ =~= decimal(account_id as nat));
    let mut q = String::from_str("account_id=");
    q.append(string_of_chars(&digits).as_str());
    q.append("&auth_url=");
    q.append(crate::oauth::percent_encode(auth_url).as_str());
    let full = match existing {
        Some(e) => if e.as_str().is_empty() {
            q
        } else {
            e.concat("&").concat(q.as_str())
        },
        None => q,
    };
    if base.as_str().unicode_len() >= URL_PART_LIMIT || full.as_str().unicode_len()
        >= URL_PART_LIMIT {
        return Err(ControlClientError::Url(String::from_str("url too long")));
    }
    Ok(url_with_query(base.as_str(), full.as_str()))
}

} // verus!
