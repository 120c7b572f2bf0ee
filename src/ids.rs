use vstd::arithmetic::power::pow;
use vstd::prelude::*;

verus! {

/// A lower-case hex digit.
pub open spec fn hex_lower(n: int) -> char {
    if n < 10 {
        ((0x30 + n) as u8) as char
    } else {
        ((0x61 + n - 10) as u8) as char
    }
}

/// The `k`-th hex digit of `id`, counting from the most significant.
pub open spec fn nibble(id: u128, k: int) -> int {
    (id as int / pow(16, (31 - k) as nat)) % 16
}

pub open spec fn is_hyphen_at(i: int) -> bool {
    i == 8 || i == 13 || i == 18 || i == 23
}

/// Which hex digit stands at position `i` of the hyphenated text.
pub open spec fn digit_index(i: int) -> int {
    if i < 8 {
        i
    } else if i < 13 {
        i - 1
    } else if i < 18 {
        i - 2
    } else if i < 23 {
        i - 3
    } else {
        i - 4
    }
}

/// The canonical text of request id `id`: its 32 lower-case hex digits, most
/// significant first, with hyphens after the 8th, 12th, 16th and 20th.
pub open spec fn uuid_text(id: u128) -> Seq<char> {
    Seq::new(
        36,
        |i: int|
            if is_hyphen_at(i) {
                '-'
            } else {
                hex_lower(nibble(id, digit_index(i)))
            },
    )
}

/// What `uuid::Uuid::parse_str` makes of `s`: the id, or `None` when rejected.
pub uninterp spec fn uuid_parse(s: Seq<char>) -> Option<u128>;

/// Relies on uuid::Uuid::new_v4: a random version-4 id. Nothing is known of
/// the value drawn.
#[verifier::external_body]
pub(crate) fn new_request_id() -> (r: u128) {
    uuid::Uuid::new_v4().as_u128()
}

/// Relies on uuid::Uuid::from_u128 (big-endian) and its `Display`: the
/// hyphenated lower-case text of the id, which uuid::Uuid::parse_str reads
/// back as the same id.
#[verifier::external_body]
pub fn request_id_text(id: u128) -> (r: String)
    ensures
        r@ == uuid_text(id),
        uuid_parse(r@) == Some(id),
{
    uuid::Uuid::from_u128(id).to_string()
}

/// Relies on uuid::Uuid::parse_str: the id that `s` spells, or the parser's
/// message.
#[verifier::external_body]
pub fn parse_request_id(s: &str) -> (r: Result<u128, String>)
    ensures
        match r {
            Ok(id) => uuid_parse(s@) == Some(id),
            Err(_) => uuid_parse(s@) is None,
        },
{
    uuid::Uuid::parse_str(s).map(|u| u.as_u128()).map_err(|e| e.to_string())
}

/// Relies on chrono::Utc::now: the current time in whole seconds since the
/// Unix epoch. Nothing is known of the value read.
#[verifier::external_body]
pub(crate) fn now_unix_seconds() -> (r: i64) {
    chrono::Utc::now().timestamp()
}

} // verus!
