use vstd::prelude::*;
use vstd::string::*;

use crate::ids::{parse_request_id, uuid_parse};
use crate::model::{copy_opt_string, AuthRequest, RequestStatus, TokenBundle};
use crate::oauth::{opt_view, OAuthError};
use crate::store::{
    records_creation, same_record, AuthStore, SelectAccountRequest, SelectAccountResponse, HTTP_BAD_REQUEST,
    HTTP_CONFLICT, HTTP_NOT_FOUND, HTTP_OK, HTTP_SERVER_ERROR,
};

verus! {

/// A failure of the browser control surface.
#[derive(Clone, Debug)]
pub enum ControlClientError {
    Http(String),
    Url(String),
}

impl ControlClientError {
    pub open spec fn message_spec(&self) -> Seq<char> {
        match self {
            ControlClientError::Http(s) => "http error: "@ + s@,
            ControlClientError::Url(s) => "invalid url: "@ + s@,
        }
    }

    /// The human-readable description of the failure.
    pub fn message(&self) -> (r: String)
        ensures
            r@ == self.message_spec(),
    {
        match self {
            ControlClientError::Http(s) => String::from_str("http error: ").concat(s.as_str()),
            ControlClientError::Url(s) => String::from_str("invalid url: ").concat(s.as_str()),
        }
    }

    /// A notifier failure during account selection, as the request records it.
    pub fn into_oauth_error(&self) -> (r: OAuthError)
        ensures
            r matches OAuthError::Exchange(m) && m@ == self.message_spec(),
    {
        OAuthError::Exchange(self.message())
    }
}

/// `after` keeps every id that `before` holds.
pub open spec fn keeps_ids(before: Map<u128, AuthRequest>, after: Map<u128, AuthRequest>) -> bool {
    forall|k: u128| #[trigger] before.contains_key(k) ==> after.contains_key(k)
}

/// The record that account selection prepares from `r`.
pub open spec fn selected(r: AuthRequest, account_id: u32, now: i64, out: AuthRequest) -> bool {
    &&& out.id == r.id
    &&& out.client_name == r.client_name
    &&& out.hostname == r.hostname
    &&& out.scopes@ == r.scopes@
    &&& out.status == RequestStatus::InProgress
    &&& out.account_id == Some(account_id)
    &&& out.token == r.token
    &&& out.error == r.error
    &&& out.created_at == r.created_at
    &&& out.updated_at == now
}

/// `out` is `r` with only the listed outcome fields changed.
pub open spec fn resolved(
    r: AuthRequest,
    out: AuthRequest,
    status: RequestStatus,
    token: Option<TokenBundle>,
    error: Option<Seq<char>>,
    now: i64,
) -> bool {
    &&& out.id == r.id
    &&& out.client_name == r.client_name
    &&& out.hostname == r.hostname
    &&& out.scopes@ == r.scopes@
    &&& out.account_id == r.account_id
    &&& out.created_at == r.created_at
    &&& out.status == status
    &&& out.token == token
    &&& opt_view(out.error) == error
    &&& out.updated_at == now
}

impl AuthStore {
    /// First half of account selection, which reads only: checks that `id`
    /// names a request that can still be selected and returns the record as
    /// it will stand once the account is recorded. A malformed id is a bad
    /// request, an unknown one is not found, and a request in a terminal
    /// status is a conflict, reported with its current status.
    pub fn select_account(&self, id: &str, body: &SelectAccountRequest, now: i64) -> (r: Result<
        AuthRequest,
        (u16, SelectAccountResponse),
    >)
        requires
            self.wf(),
        ensures
            match uuid_parse(id@) {
                None => r matches Err(e) && e.0 == HTTP_BAD_REQUEST && e.1.request_id == 0
                    && e.1.status == RequestStatus::Error && e.1.account_id == body.account_id
                    && e.1.error is Some && "invalid_request_id: "@.is_prefix_of(e.1.error.unwrap()@),
                Some(k) => if !self.view().contains_key(k) {
                    r matches Err(e) && e.0 == HTTP_NOT_FOUND && e.1.request_id == k && e.1.status
                        == RequestStatus::Error && e.1.account_id == body.account_id && opt_view(
                        e.1.error,
                    ) == Some("request_not_found"@)
                } else if self.view()[k].status.is_terminal() {
                    r matches Err(e) && e.0 == HTTP_CONFLICT && e.1.request_id == k && e.1.status
                        == self.view()[k].status && e.1.account_id == body.account_id && opt_view(
                        e.1.error,
                    ) == Some("request_already_resolved"@)
                } else {
                    r matches Ok(req) && selected(self.view()[k], body.account_id, now, req) && req.wf()
                },
            },
    {
        let account_id: u32 = body.account_id;
        let k: u128 = match parse_request_id(id) {
            Ok(k) => k,
            Err(msg) => {
                return Err(
                    (
                        HTTP_BAD_REQUEST,
                        SelectAccountResponse {
                            request_id: 0,
                            status: RequestStatus::Error,
                            account_id,
                            error: Some(
                                String::from_str("invalid_request_id: ").concat(msg.as_str()),
                            ),
                        },
                    ),
                );
            },
        };
        match self.get(k) {
            None => Err(
                (
                    HTTP_NOT_FOUND,
                    SelectAccountResponse {
                        request_id: k,
                        status: RequestStatus::Error,
                        account_id,
                        error: Some(String::from_str("request_not_found")),
                    },
                ),
            ),
            Some(mut req) => {
                if req.status.terminal() {
                    return Err(
                        (
                            HTTP_CONFLICT,
                            SelectAccountResponse {
                                request_id: k,
                                status: req.status,
                                account_id,
                                error: Some(String::from_str("request_already_resolved")),
                            },
                        ),
                    );
                }
                req.status = RequestStatus::InProgress;
                req.account_id = Some(account_id);
                req.updated_at = now;
                Ok(req)
            },
        }
    }

    /// Second half of account selection: stores `req` as prepared, or, when
    /// building the URL or notifying the browser failed, as an `Error` that
    /// carries the failure's message. Only the record for `req.id` changes.
    pub fn complete_select_account(
        &mut self,
        req: AuthRequest,
        account_id: u32,
        outcome: Result<(), OAuthError>,
        now: i64,
    ) -> (r: (u16, SelectAccountResponse))
        requires
            old(self).wf(),
            req.wf(),
            req.status == RequestStatus::InProgress,
        ensures
            final(self).wf(),
            final(self).view().dom() == old(self).view().dom().insert(req.id),
            forall|k: u128| #[trigger]
                old(self).view().contains_key(k) && k != req.id ==> final(self).view()[k]
                    == old(self).view()[k],
            match outcome {
                Ok(_) => same_record(final(self).view()[req.id], req),
                Err(e) => resolved(
                    req,
                    final(self).view()[req.id],
                    RequestStatus::Error,
                    None,
                    Some(e.message_spec()),
                    now,
                ),
            },
            r.0 == HTTP_OK,
            r.1.request_id == req.id,
            r.1.account_id == account_id,
            r.1.status == final(self).view()[req.id].status,
            r.1.error == final(self).view()[req.id].error,
    {
        let mut req = req;
        match outcome {
            Ok(_) => {},
            Err(e) => {
                req.status = RequestStatus::Error;
                req.token = None;
                req.error = Some(e.message());
                req.updated_at = now;
            },
        }
        let resp = SelectAccountResponse {
            request_id: req.id,
            status: req.status,
            account_id,
            error: copy_opt_string(&req.error),
        };
        self.update(req);
        (HTTP_OK, resp)
    }

    /// First half of the provider callback, which reads only: both `code` and
    /// `state` must be given, and `state` must be the text of a stored request
    /// id. Any other callback is refused, with no record touched.
    pub fn oauth_callback(&self, code: Option<String>, state: Option<String>) -> (r: Result<
        (String, AuthRequest),
        (u16, String),
    >)
        requires
            self.wf(),
        ensures
            match (code, state) {
                (None, _) => r matches Err(e) && e.0 == HTTP_BAD_REQUEST && e.1@
                    == "missing_code"@,
                (Some(_), None) => r matches Err(e) && e.0 == HTTP_BAD_REQUEST && e.1@
                    == "missing_state"@,
                (Some(c), Some(s)) => match uuid_parse(s@) {
                    None => r matches Err(e) && e.0 == HTTP_BAD_REQUEST,
                    Some(k) => if self.view().contains_key(k) {
                        r matches Ok(p) && p.0 == c && same_record(p.1, self.view()[k])
                    } else {
                        r matches Err(e) && e.0 == HTTP_NOT_FOUND && e.1@ == "request_not_found"@
                    },
                },
            },
    {
        let code = match code {
            Some(c) => c,
            None => {
                return Err((HTTP_BAD_REQUEST, String::from_str("missing_code")));
            },
        };
        let state = match state {
            Some(s) => s,
            None => {
                return Err((HTTP_BAD_REQUEST, String::from_str("missing_state")));
            },
        };
        let k: u128 = match parse_request_id(state.as_str()) {
            Ok(k) => k,
            Err(msg) => {
                return Err((HTTP_BAD_REQUEST, msg));
            },
        };
        match self.get(k) {
            Some(req) => Ok((code, req)),
            None => Err((HTTP_NOT_FOUND, String::from_str("request_not_found"))),
        }
    }

    /// Second half of the provider callback: records the exchange's outcome
    /// on `req`. A token makes the request `Approved` with the token and no
    /// error (200); a failure makes it `Error` with the failure's message and no
    /// token (500). Only the record for `req.id` changes.
    pub fn complete_oauth_callback(
        &mut self,
        req: AuthRequest,
        exchange: Result<TokenBundle, OAuthError>,
        now: i64,
    ) -> (r: (u16, String))
        requires
            old(self).wf(),
        ensures
            final(self).wf(),
            final(self).view().dom() == old(self).view().dom().insert(req.id),
            forall|k: u128| #[trigger]
                old(self).view().contains_key(k) && k != req.id ==> final(self).view()[k]
                    == old(self).view()[k],
            match exchange {
                Ok(t) => resolved(
                    req,
                    final(self).view()[req.id],
                    RequestStatus::Approved,
                    Some(t),
                    None,
                    now,
                ) && r.0 == HTTP_OK && r.1@ == "You may close this window."@,
                Err(e) => resolved(
                    req,
                    final(self).view()[req.id],
                    RequestStatus::Error,
                    None,
                    Some(e.message_spec()),
                    now,
                ) && r.0 == HTTP_SERVER_ERROR && r.1@ == "OAuth error"@,
            },
    {
        let mut req = req;
        req.updated_at = now;
        match exchange {
            Ok(t) => {
                req.token = Some(t);
                req.status = RequestStatus::Approved;
                req.error = None;
                self.update(req);
                (HTTP_OK, String::from_str("You may close this window."))
            },
            Err(e) => {
                req.status = RequestStatus::Error;
                req.token = None;
                req.error = Some(e.message());
                self.update(req);
                (HTTP_SERVER_ERROR, String::from_str("OAuth error"))
            },
        }
    }
}

/// Every stored request is consistent: an approved one carries a token and no
/// error, a failed one carries a non-empty error and no token.
pub proof fn lemma_stored_requests_consistent(store: AuthStore, id: u128)
    requires
        store.wf(),
        store.view().contains_key(id),
    ensures
        store.view()[id].status == RequestStatus::Approved ==> store.view()[id].token is Some
            && store.view()[id].error is None,
        store.view()[id].status == RequestStatus::Error ==> store.view()[id].token is None
            && store.view()[id].error is Some && store.view()[id].error.unwrap()@.len() > 0,
{
}

/// Two creations, with any changes that keep ids in between, never hand out
/// the same id.
pub proof fn lemma_created_ids_distinct(
    s0: Map<u128, AuthRequest>,
    s1: Map<u128, AuthRequest>,
    s2: Map<u128, AuthRequest>,
    s3: Map<u128, AuthRequest>,
    id1: u128,
    id2: u128,
    names1: (Seq<char>, Seq<char>, Seq<String>),
    names2: (Seq<char>, Seq<char>, Seq<String>),
)
    requires
        records_creation(s0, s1, id1, names1.0, names1.1, names1.2),
        keeps_ids(s1, s2),
        records_creation(s2, s3, id2, names2.0, names2.1, names2.2),
    ensures
        id1 != id2,
        s3.contains_key(id1),
        s3.contains_key(id2),
{
    assert(s1.contains_key(id1));
    assert(s2.contains_key(id1));
}

} // verus!
