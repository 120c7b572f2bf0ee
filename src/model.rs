use vstd::prelude::*;

verus! {

/// Where a token request stands in its lifecycle.
#[derive(Clone, Copy, Debug, PartialEq, Eq, Structural)]
pub enum RequestStatus {
    Pending,
    InProgress,
    Approved,
    Denied,
    Cancelled,
    Error,
}

impl RequestStatus {
    /// A terminal status admits no further account selection.
    pub open spec fn is_terminal(self) -> bool {
        match self {
            RequestStatus::Approved | RequestStatus::Denied | RequestStatus::Cancelled
            | RequestStatus::Error => true,
            RequestStatus::Pending | RequestStatus::InProgress => false,
        }
    }

    /// Whether no further account selection is allowed.
    pub fn terminal(&self) -> (r: bool)
        ensures
            r == self.is_terminal(),
    {
        match self {
            RequestStatus::Pending | RequestStatus::InProgress => false,
            _ => true,
        }
    }
}

/// A copy of an optional string.
pub fn copy_opt_string(s: &Option<String>) -> (r: Option<String>)
    ensures
        r == *s,
{
    match s {
        Some(v) => Some(v.clone()),
        None => None,
    }
}

/// A copy of a list of strings, element by element.
pub fn copy_strings(v: &Vec<String>) -> (r: Vec<String>)
    ensures
        r@ == v@,
{
    let mut out: Vec<String> = Vec::new();
    let mut i: usize = 0;
    while i < v.len()
        invariant
            i <= v@.len(),
            out@ == v@.subrange(0, i as int),
        decreases v@.len() - i,
    {
        out.push(v[i].clone());
        i = i + 1;
        assert(out@ =~= v@.subrange(0, i as int));
    }
    assert(v@.subrange(0, v@.len() as int) =~= v@);
    out
}

/// The credentials issued for an approved request. Timestamps are whole
/// seconds since the Unix epoch.
#[derive(Clone, Debug)]
pub struct TokenBundle {
    pub access_token: String,
    pub refresh_token: Option<String>,
    pub expires_at: Option<i64>,
    pub token_type: String,
    pub scope: Option<String>,
}

impl TokenBundle {
    /// A copy equal to `self` field by field.
    pub fn duplicate(&self) -> (r: TokenBundle)
        ensures
            r == *self,
    {
        TokenBundle {
            access_token: self.access_token.clone(),
            refresh_token: copy_opt_string(&self.refresh_token),
            expires_at: self.expires_at,
            token_type: self.token_type.clone(),
            scope: copy_opt_string(&self.scope),
        }
    }
}

/// A copy of an optional token bundle.
pub fn copy_opt_token(t: &Option<TokenBundle>) -> (r: Option<TokenBundle>)
    ensures
        r == *t,
{
    match t {
        Some(b) => Some(b.duplicate()),
        None => None,
    }
}

/// One authorization attempt, keyed by its `id`.
#[derive(Clone, Debug)]
pub struct AuthRequest {
    pub id: u128,
    pub client_name: String,
    pub hostname: String,
    pub scopes: Vec<String>,
    pub status: RequestStatus,
    pub account_id: Option<u32>,
    pub token: Option<TokenBundle>,
    pub error: Option<String>,
    pub created_at: i64,
    pub updated_at: i64,
}

impl AuthRequest {
    /// The token is present exactly when the request is approved, the error
    /// exactly when it failed, and an error message is never empty.
    pub open spec fn wf(&self) -> bool {
        &&& (self.token is Some <==> self.status == RequestStatus::Approved)
        &&& (self.error is Some <==> self.status == RequestStatus::Error)
        &&& (self.error matches Some(e) ==> e@.len() > 0)
    }

    /// A fresh request: pending, with no account, token or error.
    pub fn new(id: u128, client_name: String, hostname: String, scopes: Vec<String>, now: i64) -> (r:
        AuthRequest)
        ensures
            r.id == id,
            r.client_name == client_name,
            r.hostname == hostname,
            r.scopes@ == scopes@,
            r.status == RequestStatus::Pending,
            r.account_id is None,
            r.token is None,
            r.error is None,
            r.created_at == now,
            r.updated_at == now,
            r.wf(),
    {
        AuthRequest {
            id,
            client_name,
            hostname,
            scopes,
            status: RequestStatus::Pending,
            account_id: None,
            token: None,
            error: None,
            created_at: now,
            updated_at: now,
        }
    }

    /// A copy equal to `self` field by field.
    pub fn duplicate(&self) -> (r: AuthRequest)
        ensures
            r.id == self.id,
            r.client_name == self.client_name,
            r.hostname == self.hostname,
            r.scopes@ == self.scopes@,
            r.status == self.status,
            r.account_id == self.account_id,
            r.token == self.token,
            r.error == self.error,
            r.created_at == self.created_at,
            r.updated_at == self.updated_at,
    {
        AuthRequest {
            id: self.id,
            client_name: self.client_name.clone(),
            hostname: self.hostname.clone(),
            scopes: copy_strings(&self.scopes),
            status: self.status,
            account_id: self.account_id,
            token: copy_opt_token(&self.token),
            error: copy_opt_string(&self.error),
            created_at: self.created_at,
            updated_at: self.updated_at,
        }
    }
}

} // verus!
