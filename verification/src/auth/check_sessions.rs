use vstd::prelude::*;
use crate::ids::{parsed_uuid, parse_uuid};
use crate::reply::Reply;

verus! {

/// Guard for the per-host API routes: the host named by the query
/// (`?uuid=`) must belong to the logged-in user, who is then handed on to
/// the route.
pub struct CheckSessions;

/// The guard as installed in front of a service.
pub struct CheckSessionsMiddleware;

/// An answer to the guard's pending request.
#[derive(Debug)]
pub enum CheckSessionsEvent {
    /// The session's `user_id`, or `None` when it is missing or unreadable.
    SessionUser(Option<String>),
    /// The host uuid read from the query string, or `None` when the query
    /// does not decode.
    HostUuid(Option<String>),
    /// Whether the server has an auth database pool configured.
    AuthPool(bool),
    /// Whether a connection to the auth database could be taken.
    Connection(bool),
    /// Whether the database has the host as the user's, or `None` when the
    /// lookup failed.
    Ownership(Option<bool>),
}

/// What the guard asks of its host next, or how it ends.
#[derive(Debug)]
pub enum CheckSessionsRequest {
    SessionUser,
    HostUuid,
    AuthPool,
    Connection,
    Ownership { user: u128, host_uuid: String },
    /// Pass the request on, with `user` attached to it as the logged-in user.
    ForwardAs { user: u128 },
    /// Refuse the request.
    Refuse(Reply),
    /// End with the error of the failed database lookup.
    Fail,
}

/// Where one request stands in the guard. `user` is the session's user id
/// read as a UUID, `None` when it is not one.
#[derive(Debug)]
#[allow(inconsistent_fields)]
pub enum CheckSessionsState {
    AwaitSession,
    AwaitHostUuid { user: Option<u128> },
    AwaitAuthPool { user: Option<u128>, host_uuid: String },
    AwaitConnection { user: Option<u128>, host_uuid: String },
    AwaitOwnership { user: u128, host_uuid: String },
    Done,
}

/// Every fact the guard may ask for during one request: the database is
/// read as a function of the user and the host.
pub struct CheckSessionsFacts {
    pub session_user: Option<String>,
    pub host_uuid: Option<String>,
    pub auth_pool: bool,
    pub connection: bool,
    pub ownership: spec_fn(u128, Seq<char>) -> Option<bool>,
}

impl CheckSessionsRequest {
    /// The request ends the guard's work.
    pub open spec fn is_final(self) -> bool {
        ||| self is ForwardAs
        ||| self is Refuse
        ||| self is Fail
    }
}

impl CheckSessionsFacts {
    /// The answer these facts give to `req`.
    pub open spec fn answer(self, req: CheckSessionsRequest) -> CheckSessionsEvent {
        match req {
            CheckSessionsRequest::SessionUser => CheckSessionsEvent::SessionUser(self.session_user),
            CheckSessionsRequest::HostUuid => CheckSessionsEvent::HostUuid(self.host_uuid),
            CheckSessionsRequest::AuthPool => CheckSessionsEvent::AuthPool(self.auth_pool),
            CheckSessionsRequest::Connection => CheckSessionsEvent::Connection(self.connection),
            CheckSessionsRequest::Ownership { user, host_uuid } =>
                CheckSessionsEvent::Ownership((self.ownership)(user, host_uuid@)),
            _ => CheckSessionsEvent::Connection(false),
        }
    }

    /// These facts take the guard to the point where it reads the session's
    /// user id as a UUID, and the id is not one: there the server panics.
    pub open spec fn panics(self) -> bool {
        &&& self.session_user matches Some(s)
        &&& parsed_uuid(s@) is None
        &&& self.host_uuid is Some
        &&& self.auth_pool
        &&& self.connection
    }

    /// How the guard ends a request about which these facts hold (where
    /// they do not make the server panic).
    pub open spec fn decide(self) -> CheckSessionsRequest {
        match self.session_user {
            None => CheckSessionsRequest::Refuse(Reply::BadRequest),
            Some(s) => match self.host_uuid {
                None => CheckSessionsRequest::Refuse(Reply::BadRequest),
                Some(host_uuid) => if !self.auth_pool || !self.connection {
                    CheckSessionsRequest::Refuse(Reply::InternalServerError)
                } else {
                    match (self.ownership)(parsed_uuid(s@)->0, host_uuid@) {
                        None => CheckSessionsRequest::Fail,
                        Some(true) => CheckSessionsRequest::ForwardAs { user: parsed_uuid(s@)->0 },
                        Some(false) => CheckSessionsRequest::Refuse(Reply::Unauthorized),
                    }
                },
            },
        }
    }
}

impl CheckSessionsState {
    /// `e` answers the request the guard has pending in this state. A
    /// connection is not accepted for a session whose user id is not a
    /// UUID: the server panics there, and its host must too.
    pub open spec fn accepts(self, e: CheckSessionsEvent) -> bool {
        match self {
            CheckSessionsState::AwaitSession => e is SessionUser,
            CheckSessionsState::AwaitHostUuid { .. } => e is HostUuid,
            CheckSessionsState::AwaitAuthPool { .. } => e is AuthPool,
            CheckSessionsState::AwaitConnection { user, .. } =>
                e matches CheckSessionsEvent::Connection(ok) && (ok ==> user is Some),
            CheckSessionsState::AwaitOwnership { .. } => e is Ownership,
            CheckSessionsState::Done => false,
        }
    }

    /// One step of the guard: the state it moves to and what it asks next.
    pub open spec fn next(self, e: CheckSessionsEvent) -> (CheckSessionsState, CheckSessionsRequest) {
        match (self, e) {
            (CheckSessionsState::AwaitSession, CheckSessionsEvent::SessionUser(session)) => match session {
                None => (CheckSessionsState::Done, CheckSessionsRequest::Refuse(Reply::BadRequest)),
                Some(s) => (CheckSessionsState::AwaitHostUuid { user: parsed_uuid(s@) }, CheckSessionsRequest::HostUuid),
            },
            (CheckSessionsState::AwaitHostUuid { user }, CheckSessionsEvent::HostUuid(host)) => match host {
                None => (CheckSessionsState::Done, CheckSessionsRequest::Refuse(Reply::BadRequest)),
                Some(host_uuid) => (CheckSessionsState::AwaitAuthPool { user, host_uuid }, CheckSessionsRequest::AuthPool),
            },
            (CheckSessionsState::AwaitAuthPool { user, host_uuid }, CheckSessionsEvent::AuthPool(ok)) => if ok {
                (CheckSessionsState::AwaitConnection { user, host_uuid }, CheckSessionsRequest::Connection)
            } else {
                (CheckSessionsState::Done, CheckSessionsRequest::Refuse(Reply::InternalServerError))
            },
            (CheckSessionsState::AwaitConnection { user, host_uuid }, CheckSessionsEvent::Connection(ok)) =>
                if !ok {
                    (CheckSessionsState::Done, CheckSessionsRequest::Refuse(Reply::InternalServerError))
                } else {
                    match user {
                        Some(u) => (
                            CheckSessionsState::AwaitOwnership { user: u, host_uuid },
                            CheckSessionsRequest::Ownership { user: u, host_uuid },
                        ),
                        None => (CheckSessionsState::Done, CheckSessionsRequest::Fail),
                    }
                },
            (CheckSessionsState::AwaitOwnership { user, .. }, CheckSessionsEvent::Ownership(owned)) => match owned {
                None => (CheckSessionsState::Done, CheckSessionsRequest::Fail),
                Some(true) => (CheckSessionsState::Done, CheckSessionsRequest::ForwardAs { user }),
                Some(false) => (CheckSessionsState::Done, CheckSessionsRequest::Refuse(Reply::Unauthorized)),
            },
            (s, _) => (s, CheckSessionsRequest::Fail),
        }
    }

    /// The final request reached by answering from `facts`, within `fuel` steps.
    pub open spec fn run(self, req: CheckSessionsRequest, facts: CheckSessionsFacts, fuel: nat) -> Option<CheckSessionsRequest>
        decreases fuel,
    {
        if req.is_final() {
            Some(req)
        } else if fuel == 0 {
            None
        } else {
            let (s, r) = self.next(facts.answer(req));
            s.run(r, facts, (fuel - 1) as nat)
        }
    }

    /// Moves the guard on with the answer `e` to its pending request.
    pub fn step(self, e: CheckSessionsEvent) -> (r: (CheckSessionsState, CheckSessionsRequest))
        requires
            self.accepts(e),
        ensures
            r == self.next(e),
    {
        match (self, e) {
            (CheckSessionsState::AwaitSession, CheckSessionsEvent::SessionUser(session)) => match session {
                None => (CheckSessionsState::Done, CheckSessionsRequest::Refuse(Reply::BadRequest)),
                Some(s) => (CheckSessionsState::AwaitHostUuid { user: parse_uuid(s.as_str()) }, CheckSessionsRequest::HostUuid),
            },
            (CheckSessionsState::AwaitHostUuid { user }, CheckSessionsEvent::HostUuid(host)) => match host {
                None => (CheckSessionsState::Done, CheckSessionsRequest::Refuse(Reply::BadRequest)),
                Some(host_uuid) => (CheckSessionsState::AwaitAuthPool { user, host_uuid }, CheckSessionsRequest::AuthPool),
            },
            (CheckSessionsState::AwaitAuthPool { user, host_uuid }, CheckSessionsEvent::AuthPool(ok)) => if ok {
                (CheckSessionsState::AwaitConnection { user, host_uuid }, CheckSessionsRequest::Connection)
            } else {
                (CheckSessionsState::Done, CheckSessionsRequest::Refuse(Reply::InternalServerError))
            },
            (CheckSessionsState::AwaitConnection { user, host_uuid }, CheckSessionsEvent::Connection(ok)) =>
                if !ok {
                    (CheckSessionsState::Done, CheckSessionsRequest::Refuse(Reply::InternalServerError))
                } else {
                    match user {
                        Some(u) => {
                            let h = host_uuid.clone();
                            (
                                CheckSessionsState::AwaitOwnership { user: u, host_uuid },
                                CheckSessionsRequest::Ownership { user: u, host_uuid: h },
                            )
                        },
                        None => (CheckSessionsState::Done, CheckSessionsRequest::Fail),
                    }
                },
            (CheckSessionsState::AwaitOwnership { user, .. }, CheckSessionsEvent::Ownership(owned)) => match owned {
                None => (CheckSessionsState::Done, CheckSessionsRequest::Fail),
                Some(true) => (CheckSessionsState::Done, CheckSessionsRequest::ForwardAs { user }),
                Some(false) => (CheckSessionsState::Done, CheckSessionsRequest::Refuse(Reply::Unauthorized)),
            },
            (s, _) => (s, CheckSessionsRequest::Fail),
        }
    }
}

impl CheckSessions {
    /// Installs the guard in front of a service.
    pub fn new_transform(&self) -> (r: CheckSessionsMiddleware)
        ensures
            r == CheckSessionsMiddleware,
    {
        CheckSessionsMiddleware
    }
}

impl CheckSessionsMiddleware {
    /// Starts the guard's work on one request: it first asks for the session.
    pub fn call(&self) -> (r: (CheckSessionsState, CheckSessionsRequest))
        ensures
            r == (CheckSessionsState::AwaitSession, CheckSessionsRequest::SessionUser),
    {
        (CheckSessionsState::AwaitSession, CheckSessionsRequest::SessionUser)
    }
}

/// Answering the guard's requests from a fixed set of facts that do not
/// make the server panic ends, within five steps, in exactly the decision
/// those facts call for.
pub proof fn lemma_check_sessions_decides(facts: CheckSessionsFacts)
    requires
        !facts.panics(),
    ensures
        CheckSessionsState::AwaitSession.run(CheckSessionsRequest::SessionUser, facts, 5)
            == Some(facts.decide()),
{
    reveal_with_fuel(CheckSessionsState::run, 6);
}

/// The guard passes a request on only when the session's user id is a
/// UUID, the query names a host and the database has that host as the
/// user's; the user handed on is the session's.
pub proof fn lemma_check_sessions_forwards_only_owners(facts: CheckSessionsFacts)
    requires
        !facts.panics(),
    ensures
        facts.decide() matches CheckSessionsRequest::ForwardAs { user } ==> {
            &&& facts.session_user matches Some(s)
            &&& parsed_uuid(s@) == Some(user)
            &&& facts.host_uuid matches Some(host)
            &&& (facts.ownership)(user, host@) == Some(true)
        },
{
}

} // verus!
