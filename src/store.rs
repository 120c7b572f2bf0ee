use vstd::prelude::*;
use vstd::string::*;
use std::collections::HashMap;

use crate::ids::{new_request_id, now_unix_seconds, parse_request_id, uuid_parse};
use crate::model::{copy_opt_string, copy_opt_token, copy_strings, AuthRequest, RequestStatus, TokenBundle};
use crate::oauth::opt_view;

verus! {

broadcast use vstd::std_specs::hash::group_hash_axioms;

/// Two records agree on every field.
pub open spec fn same_record(a: AuthRequest, b: AuthRequest) -> bool {
    &&& a.id == b.id
    &&& a.client_name == b.client_name
    &&& a.hostname == b.hostname
    &&& a.scopes@ == b.scopes@
    &&& a.status == b.status
    &&& a.account_id == b.account_id
    &&& a.token == b.token
    &&& a.error == b.error
    &&& a.created_at == b.created_at
    &&& a.updated_at == b.updated_at
}

/// `after` is `before` with a new pending request `id` for the given caller.
pub open spec fn records_creation(
    before: Map<u128, AuthRequest>,
    after: Map<u128, AuthRequest>,
    id: u128,
    client_name: Seq<char>,
    hostname: Seq<char>,
    scopes: Seq<String>,
) -> bool {
    &&& !before.contains_key(id)
    &&& after.dom() == before.dom().insert(id)
    &&& forall|k: u128| #[trigger] before.contains_key(k) ==> after[k] == before[k]
    &&& after[id].id == id
    &&& after[id].status == RequestStatus::Pending
    &&& after[id].client_name@ == client_name
    &&& after[id].hostname@ == hostname
    &&& after[id].scopes@ == scopes
    &&& after[id].account_id is None
    &&& after[id].token is None
    &&& after[id].error is None
}

/// Body of a create call.
#[derive(Clone, Debug)]
pub struct CreateTokenRequest {
    pub client_name: String,
    pub hostname: String,
    pub scopes: Vec<String>,
}

/// Body of an account selection.
#[derive(Clone, Copy, Debug)]
pub struct SelectAccountRequest {
    pub account_id: u32,
}

/// Reply to a create call.
#[derive(Clone, Copy, Debug)]
pub struct CreateTokenResponse {
    pub request_id: u128,
    pub status: RequestStatus,
}

/// Snapshot of a request as the status endpoint reports it.
#[derive(Clone, Debug)]
pub struct StatusResponse {
    pub request_id: u128,
    pub status: RequestStatus,
    pub token: Option<TokenBundle>,
    pub error: Option<String>,
}

/// Reply to an account selection.
#[derive(Clone, Debug)]
pub struct SelectAccountResponse {
    pub request_id: u128,
    pub status: RequestStatus,
    pub account_id: u32,
    pub error: Option<String>,
}

pub const HTTP_OK: u16 = 200;

pub const HTTP_BAD_REQUEST: u16 = 400;

pub const HTTP_NOT_FOUND: u16 = 404;

pub const HTTP_CONFLICT: u16 = 409;

pub const HTTP_SERVER_ERROR: u16 = 500;

/// How many fresh ids `create` draws before it gives up on a colliding id.
pub const ID_DRAWS: u32 = 8;

/// The router's requests, keyed by id. Records are never removed.
pub struct AuthStore {
    records: HashMap<u128, AuthRequest>,
}

impl AuthStore {
    pub closed spec fn view(&self) -> Map<u128, AuthRequest> {
        self.records@
    }

    /// Every record sits under its own id and is consistent.
    pub open spec fn wf(&self) -> bool {
        forall|k: u128| #[trigger]
            self.view().contains_key(k) ==> self.view()[k].id == k && self.view()[k].wf()
    }

    /// An empty store.
    pub fn new() -> (r: AuthStore)
        ensures
            r.view() == Map::<u128, AuthRequest>::empty(),
            r.wf(),
    {
        AuthStore { records: HashMap::new() }
    }

    /// Stores `req` under its id.
    pub fn insert(&mut self, req: AuthRequest)
        requires
            old(self).wf(),
            req.wf(),
        ensures
            final(self).view() == old(self).view().insert(req.id, req),
            final(self).wf(),
    {
        self.records.insert(req.id, req);
    }

    /// Replaces the record for `req.id` with `req`.
    pub fn update(&mut self, req: AuthRequest)
        requires
            old(self).wf(),
            req.wf(),
        ensures
            final(self).view() == old(self).view().insert(req.id, req),
            final(self).wf(),
    {
        self.records.insert(req.id, req);
    }

    /// A copy of the record for `id`, if there is one.
    pub fn get(&self, id: u128) -> (r: Option<AuthRequest>)
        ensures
            r is Some <==> self.view().contains_key(id),
            r matches Some(x) ==> same_record(x, self.view()[id]),
    {
        match self.records.get(&id) {
            Some(x) => Some(x.duplicate()),
            None => None,
        }
    }

    /// Records a new pending request under `id`, unless `id` is taken, in
    /// which case nothing changes and `None` comes back.
    pub fn create_with_id(
        &mut self,
        id: u128,
        client_name: String,
        hostname: String,
        scopes: Vec<String>,
        now: i64,
    ) -> (r: Option<CreateTokenResponse>)
        requires
            old(self).wf(),
        ensures
            final(self).wf(),
            old(self).view().contains_key(id) <==> r is None,
            r is None ==> final(self).view() == old(self).view(),
            r matches Some(resp) ==> resp.request_id == id && resp.status == RequestStatus::Pending
                && records_creation(
                old(self).view(),
                final(self).view(),
                id,
                client_name@,
                hostname@,
                scopes@,
            ) && final(self).view()[id].created_at == now,
    {
        if self.records.contains_key(&id) {
            return None;
        }
        let req = AuthRequest::new(id, client_name, hostname, scopes, now);
        self.records.insert(id, req);
        Some(CreateTokenResponse { request_id: id, status: RequestStatus::Pending })
    }

    /// Records a new pending request under a freshly drawn random id. An id
    /// already in use is never reused: `None` (and no change) only if every
    /// one of `ID_DRAWS` draws collided, which cannot happen on an empty store.
    pub fn create_token_request(&mut self, body: CreateTokenRequest) -> (r: Option<
        CreateTokenResponse,
    >)
        requires
            old(self).wf(),
        ensures
            final(self).wf(),
            old(self).view().dom() == Set::<u128>::empty() ==> r is Some,
            r is None ==> final(self).view() == old(self).view(),
            r matches Some(resp) ==> resp.status == RequestStatus::Pending && records_creation(
                old(self).view(),
                final(self).view(),
                resp.request_id,
                body.client_name@,
                body.hostname@,
                body.scopes@,
            ),
    {
        let now: i64 = now_unix_seconds();
        let mut tries: u32 = 0;
        while tries < ID_DRAWS
            invariant
                self.wf(),
                self.view() == old(self).view(),
                tries > 0 ==> old(self).view().dom() != Set::<u128>::empty(),
            decreases ID_DRAWS - tries,
        {
            let id: u128 = new_request_id();
            let created = self.create_with_id(
                id,
                body.client_name.clone(),
                body.hostname.clone(),
                copy_strings(&body.scopes),
                now,
            );
            if created.is_some() {
                return created;
            }
            assert(old(self).view().dom().contains(id));
            tries = tries + 1;
        }
        None
    }

    /// The status endpoint: `id` must be the text of a known request id. A
    /// malformed id is a bad request; an unknown one is not found; otherwise the
    /// stored snapshot comes back.
    pub fn get_status(&self, id: &str) -> (r: (u16, StatusResponse))
        requires
            self.wf(),
        ensures
            match uuid_parse(id@) {
                None => r.0 == HTTP_BAD_REQUEST && r.1.request_id == 0 && r.1.status
                    == RequestStatus::Error && r.1.token is None && r.1.error is Some
                    && "invalid_request_id: "@.is_prefix_of(r.1.error.unwrap()@),
                Some(k) => if self.view().contains_key(k) {
                    r.0 == HTTP_OK && r.1.request_id == k && r.1.status == self.view()[k].status
                        && r.1.token == self.view()[k].token && r.1.error == self.view()[k].error
                } else {
                    r.0 == HTTP_NOT_FOUND && r.1.request_id == k && r.1.status
                        == RequestStatus::Error && r.1.token is None && opt_view(r.1.error) == Some(
                        "request_not_found"@,
                    )
                },
            },
    {
        match parse_request_id(id) {
            Err(msg) => (
                HTTP_BAD_REQUEST,
                StatusResponse {
                    request_id: 0,
                    status: RequestStatus::Error,
                    token: None,
                    error: Some(String::from_str("invalid_request_id: ").concat(msg.as_str())),
                },
            ),
            Ok(k) => match self.records.get(&k) {
                Some(req) => (
                    HTTP_OK,
                    StatusResponse {
                        request_id: req.id,
                        status: req.status,
                        token: copy_opt_token(&req.token),
                        error: copy_opt_string(&req.error),
                    },
                ),
                None => (
                    HTTP_NOT_FOUND,
                    StatusResponse {
                        request_id: k,
                        status: RequestStatus::Error,
                        token: None,
                        error: Some(String::from_str("request_not_found")),
                    },
                ),
            },
        }
    }
}

} // verus!
