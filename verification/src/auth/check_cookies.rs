use vstd::prelude::*;
use crate::reply::Reply;

verus! {

/// Guard that lets a request through only when the customer of the session
/// owns the host named by the query (`?uuid=`), as the customers' ownership
/// table records it.
pub struct CheckCookies;

/// The guard as installed in front of a service.
pub struct CheckCookiesMiddleware;

/// An answer to the guard's pending request.
#[derive(Debug)]
pub enum CheckCookiesEvent {
    /// The session's `user_id`, or `None` when it is missing or unreadable.
    SessionUser(Option<String>),
    /// Whether the server's shared data is configured.
    AppData(bool),
    /// Whether a connection to the auth database could be taken.
    Connection(bool),
    /// The host uuid read from the query string, or `None` when the query
    /// does not decode.
    HostUuid(Option<String>),
    /// The outcome of the ownership lookup: `None` when the blocking task
    /// could not run, `Some(None)` when the lookup itself failed, else
    /// whether the user owns the host.
    Ownership(Option<Option<bool>>),
}

/// What the guard asks of its host next, or how it ends.
#[derive(Debug)]
pub enum CheckCookiesRequest {
    SessionUser,
    AppData,
    Connection,
    HostUuid,
    Ownership { user: String, host_uuid: String },
    /// Pass the request on unchanged.
    Forward,
    /// Refuse the request.
    Refuse(Reply),
    /// End with the error of the blocking task that could not run.
    Fail,
}

/// Where one request stands in the guard.
#[derive(Debug)]
pub enum CheckCookiesState {
    AwaitSession,
    AwaitAppData { user: String },
    AwaitConnection { user: String },
    AwaitHostUuid { user: String },
    AwaitOwnership,
    Done,
}

/// Every fact the guard may ask for during one request: the ownership
/// lookup is read as a function of the user and the host.
pub struct CheckCookiesFacts {
    pub session_user: Option<String>,
    pub app_data: bool,
    pub connection: bool,
    pub host_uuid: Option<String>,
    pub ownership: spec_fn(Seq<char>, Seq<char>) -> Option<Option<bool>>,
}

impl CheckCookiesRequest {
    /// The request ends the guard's work.
    pub open spec fn is_final(self) -> bool {
        ||| self is Forward
        ||| self is Refuse
        ||| self is Fail
    }
}

impl CheckCookiesFacts {
    /// The answer these facts give to `req`.
    pub open spec fn answer(self, req: CheckCookiesRequest) -> CheckCookiesEvent {
        match req {
            CheckCookiesRequest::SessionUser => CheckCookiesEvent::SessionUser(self.session_user),
            CheckCookiesRequest::AppData => CheckCookiesEvent::AppData(self.app_data),
            CheckCookiesRequest::Connection => CheckCookiesEvent::Connection(self.connection),
            CheckCookiesRequest::HostUuid => CheckCookiesEvent::HostUuid(self.host_uuid),
            CheckCookiesRequest::Ownership { user, host_uuid } =>
                CheckCookiesEvent::Ownership((self.ownership)(user@, host_uuid@)),
            _ => CheckCookiesEvent::Connection(false),
        }
    }

    /// How the guard ends a request about which these facts hold.
    pub open spec fn decide(self) -> CheckCookiesRequest {
        match self.session_user {
            None => CheckCookiesRequest::Refuse(Reply::BadRequest),
            Some(user) => if !self.app_data || !self.connection {
                CheckCookiesRequest::Refuse(Reply::InternalServerError)
            } else {
                match self.host_uuid {
                    None => CheckCookiesRequest::Refuse(Reply::BadRequest),
                    Some(host) => match (self.ownership)(user@, host@) {
                        None => CheckCookiesRequest::Fail,
                        Some(None) => CheckCookiesRequest::Refuse(Reply::InternalServerError),
                        Some(Some(true)) => CheckCookiesRequest::Forward,
                        Some(Some(false)) => CheckCookiesRequest::Refuse(Reply::Unauthorized),
                    },
                }
            },
        }
    }
}

impl CheckCookiesState {
    /// `e` answers the request the guard has pending in this state.
    pub open spec fn accepts(self, e: CheckCookiesEvent) -> bool {
        match self {
            CheckCookiesState::AwaitSession => e is SessionUser,
            CheckCookiesState::AwaitAppData { .. } => e is AppData,
            CheckCookiesState::AwaitConnection { .. } => e is Connection,
            CheckCookiesState::AwaitHostUuid { .. } => e is HostUuid,
            CheckCookiesState::AwaitOwnership => e is Ownership,
            CheckCookiesState::Done => false,
        }
    }

    /// One step of the guard: the state it moves to and what it asks next.
    pub open spec fn next(self, e: CheckCookiesEvent) -> (CheckCookiesState, CheckCookiesRequest) {
        match (self, e) {
            (CheckCookiesState::AwaitSession, CheckCookiesEvent::SessionUser(session)) => match session {
                None => (CheckCookiesState::Done, CheckCookiesRequest::Refuse(Reply::BadRequest)),
                Some(user) => (CheckCookiesState::AwaitAppData { user }, CheckCookiesRequest::AppData),
            },
            (CheckCookiesState::AwaitAppData { user }, CheckCookiesEvent::AppData(ok)) => if ok {
                (CheckCookiesState::AwaitConnection { user }, CheckCookiesRequest::Connection)
            } else {
                (CheckCookiesState::Done, CheckCookiesRequest::Refuse(Reply::InternalServerError))
            },
            (CheckCookiesState::AwaitConnection { user }, CheckCookiesEvent::Connection(ok)) => if ok {
                (CheckCookiesState::AwaitHostUuid { user }, CheckCookiesRequest::HostUuid)
            } else {
                (CheckCookiesState::Done, CheckCookiesRequest::Refuse(Reply::InternalServerError))
            },
            (CheckCookiesState::AwaitHostUuid { user }, CheckCookiesEvent::HostUuid(host)) => match host {
                None => (CheckCookiesState::Done, CheckCookiesRequest::Refuse(Reply::BadRequest)),
                Some(host_uuid) => (CheckCookiesState::AwaitOwnership, CheckCookiesRequest::Ownership { user, host_uuid }),
            },
            (CheckCookiesState::AwaitOwnership, CheckCookiesEvent::Ownership(outcome)) => match outcome {
                None => (CheckCookiesState::Done, CheckCookiesRequest::Fail),
                Some(None) => (CheckCookiesState::Done, CheckCookiesRequest::Refuse(Reply::InternalServerError)),
                Some(Some(true)) => (CheckCookiesState::Done, CheckCookiesRequest::Forward),
                Some(Some(false)) => (CheckCookiesState::Done, CheckCookiesRequest::Refuse(Reply::Unauthorized)),
            },
            (s, _) => (s, CheckCookiesRequest::Fail),
        }
    }

    /// The final request reached by answering from `facts`, within `fuel` steps.
    pub open spec fn run(self, req: CheckCookiesRequest, facts: CheckCookiesFacts, fuel: nat) -> Option<CheckCookiesRequest>
        decreases fuel,
    {
        if req.is_final() {
            Some(req)
        } else if fuel == 0 {
            None
        } else {
            let (s, r) = self.next(facts.answer(req));
            s.run(r, facts, (fuel - 1) as nat)
        }
    }

    /// Moves the guard on with the answer `e` to its pending request.
    pub fn step(self, e: CheckCookiesEvent) -> (r: (CheckCookiesState, CheckCookiesRequest))
        requires
            self.accepts(e),
        ensures
            r == self.next(e),
    {
        match (self, e) {
            (CheckCookiesState::AwaitSession, CheckCookiesEvent::SessionUser(session)) => match session {
                None => (CheckCookiesState::Done, CheckCookiesRequest::Refuse(Reply::BadRequest)),
                Some(user) => (CheckCookiesState::AwaitAppData { user }, CheckCookiesRequest::AppData),
            },
            (CheckCookiesState::AwaitAppData { user }, CheckCookiesEvent::AppData(ok)) => if ok {
                (CheckCookiesState::AwaitConnection { user }, CheckCookiesRequest::Connection)
            } else {
                (CheckCookiesState::Done, CheckCookiesRequest::Refuse(Reply::InternalServerError))
            },
            (CheckCookiesState::AwaitConnection { user }, CheckCookiesEvent::Connection(ok)) => if ok {
                (CheckCookiesState::AwaitHostUuid { user }, CheckCookiesRequest::HostUuid)
            } else {
                (CheckCookiesState::Done, CheckCookiesRequest::Refuse(Reply::InternalServerError))
            },
            (CheckCookiesState::AwaitHostUuid { user }, CheckCookiesEvent::HostUuid(host)) => match host {
                None => (CheckCookiesState::Done, CheckCookiesRequest::Refuse(Reply::BadRequest)),
                Some(host_uuid) => (CheckCookiesState::AwaitOwnership, CheckCookiesRequest::Ownership { user, host_uuid }),
            },
            (CheckCookiesState::AwaitOwnership, CheckCookiesEvent::Ownership(outcome)) => match outcome {
                None => (CheckCookiesState::Done, CheckCookiesRequest::Fail),
                Some(None) => (CheckCookiesState::Done, CheckCookiesRequest::Refuse(Reply::InternalServerError)),
                Some(Some(true)) => (CheckCookiesState::Done, CheckCookiesRequest::Forward),
                Some(Some(false)) => (CheckCookiesState::Done, CheckCookiesRequest::Refuse(Reply::Unauthorized)),
            },
            (s, _) => (s, CheckCookiesRequest::Fail),
        }
    }
}

impl CheckCookies {
    /// Installs the guard in front of a service.
    pub fn new_transform(&self) -> (r: CheckCookiesMiddleware)
        ensures
            r == CheckCookiesMiddleware,
    {
        CheckCookiesMiddleware
    }
}

impl CheckCookiesMiddleware {
    /// Starts the guard's work on one request: it first asks for the session.
    pub fn call(&self) -> (r: (CheckCookiesState, CheckCookiesRequest))
        ensures
            r == (CheckCookiesState::AwaitSession, CheckCookiesRequest::SessionUser),
    {
        (CheckCookiesState::AwaitSession, CheckCookiesRequest::SessionUser)
    }
}

/// Answering the guard's requests from a fixed set of facts ends, within
/// five steps, in exactly the decision those facts call for.
pub proof fn lemma_check_cookies_decides(facts: CheckCookiesFacts)
    ensures
        CheckCookiesState::AwaitSession.run(CheckCookiesRequest::SessionUser, facts, 5) == Some(facts.decide()),
{
    reveal_with_fuel(CheckCookiesState::run, 6);
}

/// The guard passes a request on only when the session names a user, the
/// query names a host and the ownership table has the host as the user's.
pub proof fn lemma_check_cookies_forwards_only_owners(facts: CheckCookiesFacts)
    ensures
        facts.decide() is Forward ==> {
            &&& facts.session_user matches Some(user)
            &&& facts.host_uuid matches Some(host)
            &&& (facts.ownership)(user@, host@) == Some(Some(true))
        },
{
}

} // verus!
