use vstd::prelude::*;
use crate::ids::{parsed_uuid, parse_uuid};
use crate::reply::Reply;

verus! {

/// Guard for `POST /api/alerts`: the alert in the body must belong to the
/// logged-in user (its `cid`) and target a host that user owns.
pub struct AlertHostOwned;

/// The guard as installed in front of a service.
pub struct AlertHostOwnedMiddleware;

/// What the guard reads of the alert in the request body.
#[derive(Debug)]
pub struct AlertRef {
    /// The customer the alert claims to belong to.
    pub cid: u128,
    /// The host the alert watches.
    pub host_uuid: String,
}

/// An answer to the guard's pending request.
#[derive(Debug)]
pub enum AlertHostOwnedEvent {
    /// The session's `user_id`, or `None` when it is missing or unreadable.
    SessionUser(Option<String>),
    /// Whether a connection to the auth database could be taken.
    Connection(bool),
    /// The alert decoded from the body, or `None` when it does not decode.
    Alert(Option<AlertRef>),
    /// The owner the cache holds for the alert's host.
    CachedOwner(Option<u128>),
    /// Whether the database has the user as owner of the host, or `None`
    /// when the lookup failed.
    Ownership(Option<bool>),
}

/// What the guard asks of its host next, or how it ends.
#[derive(Debug)]
pub enum AlertHostOwnedRequest {
    SessionUser,
    Connection,
    Alert,
    CachedOwner { host_uuid: String },
    Ownership { user: u128, host_uuid: String },
    /// Pass the request on, with the decoded alert as its body.
    Forward,
    /// Remember `user` as owner of `host_uuid` in the cache, then pass the
    /// request on with the decoded alert as its body.
    CacheAndForward { host_uuid: String, user: u128 },
    /// Refuse the request.
    Refuse(Reply),
    /// End with the error of the failed database lookup.
    Fail,
}

/// Where one request stands in the guard.
#[derive(Debug)]
pub enum AlertHostOwnedState {
    AwaitSession,
    AwaitConnection { user: u128 },
    AwaitAlert { user: u128 },
    AwaitCache { user: u128, host_uuid: String },
    AwaitOwnership { user: u128, host_uuid: String },
    Done,
}

/// Every fact the guard may ask for during one request: the cache and the
/// database are read as functions of the host, and of the user and host.
pub struct AlertHostOwnedFacts {
    pub session_user: Option<String>,
    pub connection: bool,
    pub alert: Option<AlertRef>,
    pub cached_owner: spec_fn(Seq<char>) -> Option<u128>,
    pub ownership: spec_fn(u128, Seq<char>) -> Option<bool>,
}

impl AlertHostOwnedRequest {
    /// The request ends the guard's work.
    pub open spec fn is_final(self) -> bool {
        ||| self is Forward
        ||| self is CacheAndForward
        ||| self is Refuse
        ||| self is Fail
    }
}

impl AlertHostOwnedFacts {
    /// The answer these facts give to `req`.
    pub open spec fn answer(self, req: AlertHostOwnedRequest) -> AlertHostOwnedEvent {
        match req {
            AlertHostOwnedRequest::SessionUser => AlertHostOwnedEvent::SessionUser(self.session_user),
            AlertHostOwnedRequest::Connection => AlertHostOwnedEvent::Connection(self.connection),
            AlertHostOwnedRequest::Alert => AlertHostOwnedEvent::Alert(self.alert),
            AlertHostOwnedRequest::CachedOwner { host_uuid } =>
                AlertHostOwnedEvent::CachedOwner((self.cached_owner)(host_uuid@)),
            AlertHostOwnedRequest::Ownership { user, host_uuid } =>
                AlertHostOwnedEvent::Ownership((self.ownership)(user, host_uuid@)),
            _ => AlertHostOwnedEvent::Connection(false),
        }
    }

    /// How the guard ends a request about which these facts hold.
    pub open spec fn decide(self) -> AlertHostOwnedRequest {
        match self.session_user {
            None => AlertHostOwnedRequest::Refuse(Reply::BadRequest),
            Some(s) => match parsed_uuid(s@) {
                None => AlertHostOwnedRequest::Refuse(Reply::BadRequest),
                Some(user) => if !self.connection {
                    AlertHostOwnedRequest::Refuse(Reply::InternalServerError)
                } else {
                    match self.alert {
                        None => AlertHostOwnedRequest::Refuse(Reply::BadRequest),
                        Some(alert) => if alert.cid != user {
                            AlertHostOwnedRequest::Refuse(Reply::BadRequest)
                        } else if (self.cached_owner)(alert.host_uuid@) == Some(user) {
                            AlertHostOwnedRequest::Forward
                        } else {
                            match (self.ownership)(user, alert.host_uuid@) {
                                None => AlertHostOwnedRequest::Fail,
                                Some(true) => AlertHostOwnedRequest::CacheAndForward {
                                    host_uuid: alert.host_uuid,
                                    user,
                                },
                                Some(false) => AlertHostOwnedRequest::Refuse(Reply::Unauthorized),
                            }
                        }
                    }
                }
            },
        }
    }
}

impl AlertHostOwnedState {
    /// `e` answers the request the guard has pending in this state.
    pub open spec fn accepts(self, e: AlertHostOwnedEvent) -> bool {
        match self {
            AlertHostOwnedState::AwaitSession => e is SessionUser,
            AlertHostOwnedState::AwaitConnection { .. } => e is Connection,
            AlertHostOwnedState::AwaitAlert { .. } => e is Alert,
            AlertHostOwnedState::AwaitCache { .. } => e is CachedOwner,
            AlertHostOwnedState::AwaitOwnership { .. } => e is Ownership,
            AlertHostOwnedState::Done => false,
        }
    }

    /// One step of the guard: the state it moves to and what it asks next.
    pub open spec fn next(self, e: AlertHostOwnedEvent) -> (AlertHostOwnedState, AlertHostOwnedRequest) {
        match (self, e) {
            (AlertHostOwnedState::AwaitSession, AlertHostOwnedEvent::SessionUser(session)) => match session {
                None => (AlertHostOwnedState::Done, AlertHostOwnedRequest::Refuse(Reply::BadRequest)),
                Some(s) => match parsed_uuid(s@) {
                    None => (AlertHostOwnedState::Done, AlertHostOwnedRequest::Refuse(Reply::BadRequest)),
                    Some(user) => (AlertHostOwnedState::AwaitConnection { user }, AlertHostOwnedRequest::Connection),
                },
            },
            (AlertHostOwnedState::AwaitConnection { user }, AlertHostOwnedEvent::Connection(ok)) => if ok {
                (AlertHostOwnedState::AwaitAlert { user }, AlertHostOwnedRequest::Alert)
            } else {
                (AlertHostOwnedState::Done, AlertHostOwnedRequest::Refuse(Reply::InternalServerError))
            },
            (AlertHostOwnedState::AwaitAlert { user }, AlertHostOwnedEvent::Alert(alert)) => match alert {
                None => (AlertHostOwnedState::Done, AlertHostOwnedRequest::Refuse(Reply::BadRequest)),
                Some(a) => if a.cid != user {
                    (AlertHostOwnedState::Done, AlertHostOwnedRequest::Refuse(Reply::BadRequest))
                } else {
                    (
                        AlertHostOwnedState::AwaitCache { user, host_uuid: a.host_uuid },
                        AlertHostOwnedRequest::CachedOwner { host_uuid: a.host_uuid },
                    )
                },
            },
            (AlertHostOwnedState::AwaitCache { user, host_uuid }, AlertHostOwnedEvent::CachedOwner(cached)) =>
                if cached == Some(user) {
                    (AlertHostOwnedState::Done, AlertHostOwnedRequest::Forward)
                } else {
                    (
                        AlertHostOwnedState::AwaitOwnership { user, host_uuid },
                        AlertHostOwnedRequest::Ownership { user, host_uuid },
                    )
                },
            (AlertHostOwnedState::AwaitOwnership { user, host_uuid }, AlertHostOwnedEvent::Ownership(owned)) =>
                match owned {
                    None => (AlertHostOwnedState::Done, AlertHostOwnedRequest::Fail),
                    Some(true) => (AlertHostOwnedState::Done, AlertHostOwnedRequest::CacheAndForward { host_uuid, user }),
                    Some(false) => (AlertHostOwnedState::Done, AlertHostOwnedRequest::Refuse(Reply::Unauthorized)),
                },
            (s, _) => (s, AlertHostOwnedRequest::Fail),
        }
    }

    /// The final request reached by answering from `facts`, within `fuel` steps.
    pub open spec fn run(self, req: AlertHostOwnedRequest, facts: AlertHostOwnedFacts, fuel: nat) -> Option<AlertHostOwnedRequest>
        decreases fuel,
    {
        if req.is_final() {
            Some(req)
        } else if fuel == 0 {
            None
        } else {
            let (s, r) = self.next(facts.answer(req));
            s.run(r, facts, (fuel - 1) as nat)
        }
    }

    /// Moves the guard on with the answer `e` to its pending request.
    pub fn step(self, e: AlertHostOwnedEvent) -> (r: (AlertHostOwnedState, AlertHostOwnedRequest))
        requires
            self.accepts(e),
        ensures
            r == self.next(e),
    {
        match (self, e) {
            (AlertHostOwnedState::AwaitSession, AlertHostOwnedEvent::SessionUser(session)) => match session {
                None => (AlertHostOwnedState::Done, AlertHostOwnedRequest::Refuse(Reply::BadRequest)),
                Some(s) => match parse_uuid(s.as_str()) {
                    None => (AlertHostOwnedState::Done, AlertHostOwnedRequest::Refuse(Reply::BadRequest)),
                    Some(user) => (AlertHostOwnedState::AwaitConnection { user }, AlertHostOwnedRequest::Connection),
                },
            },
            (AlertHostOwnedState::AwaitConnection { user }, AlertHostOwnedEvent::Connection(ok)) => if ok {
                (AlertHostOwnedState::AwaitAlert { user }, AlertHostOwnedRequest::Alert)
            } else {
                (AlertHostOwnedState::Done, AlertHostOwnedRequest::Refuse(Reply::InternalServerError))
            },
            (AlertHostOwnedState::AwaitAlert { user }, AlertHostOwnedEvent::Alert(alert)) => match alert {
                None => (AlertHostOwnedState::Done, AlertHostOwnedRequest::Refuse(Reply::BadRequest)),
                Some(a) => if a.cid != user {
                    (AlertHostOwnedState::Done, AlertHostOwnedRequest::Refuse(Reply::BadRequest))
                } else {
                    let host_uuid = a.host_uuid.clone();
                    (
                        AlertHostOwnedState::AwaitCache { user, host_uuid: a.host_uuid },
                        AlertHostOwnedRequest::CachedOwner { host_uuid },
                    )
                },
            },
            (AlertHostOwnedState::AwaitCache { user, host_uuid }, AlertHostOwnedEvent::CachedOwner(cached)) =>
                if cached == Some(user) {
                    (AlertHostOwnedState::Done, AlertHostOwnedRequest::Forward)
                } else {
                    let h = host_uuid.clone();
                    (
                        AlertHostOwnedState::AwaitOwnership { user, host_uuid },
                        AlertHostOwnedRequest::Ownership { user, host_uuid: h },
                    )
                },
            (AlertHostOwnedState::AwaitOwnership { user, host_uuid }, AlertHostOwnedEvent::Ownership(owned)) =>
                match owned {
                    None => (AlertHostOwnedState::Done, AlertHostOwnedRequest::Fail),
                    Some(true) => (AlertHostOwnedState::Done, AlertHostOwnedRequest::CacheAndForward { host_uuid, user }),
                    Some(false) => (AlertHostOwnedState::Done, AlertHostOwnedRequest::Refuse(Reply::Unauthorized)),
                },
            (s, _) => (s, AlertHostOwnedRequest::Fail),
        }
    }
}

impl AlertHostOwned {
    /// Installs the guard in front of a service.
    pub fn new_transform(&self) -> (r: AlertHostOwnedMiddleware)
        ensures
            r == AlertHostOwnedMiddleware,
    {
        AlertHostOwnedMiddleware
    }
}

impl AlertHostOwnedMiddleware {
    /// Starts the guard's work on one request: it first asks for the session.
    pub fn call(&self) -> (r: (AlertHostOwnedState, AlertHostOwnedRequest))
        ensures
            r == (AlertHostOwnedState::AwaitSession, AlertHostOwnedRequest::SessionUser),
    {
        (AlertHostOwnedState::AwaitSession, AlertHostOwnedRequest::SessionUser)
    }
}

/// Answering the guard's requests from a fixed set of facts ends, within
/// five steps, in exactly the decision those facts call for.
pub proof fn lemma_alert_host_owned_decides(facts: AlertHostOwnedFacts)
    ensures
        AlertHostOwnedState::AwaitSession.run(AlertHostOwnedRequest::SessionUser, facts, 5)
            == Some(facts.decide()),
{
    reveal_with_fuel(AlertHostOwnedState::run, 6);
}

/// The guard passes a request on only when the session names a user, the
/// alert claims that user as its customer, and the user owns the alert's
/// host according to the cache or the database; it caches only owners that
/// the database confirmed.
pub proof fn lemma_alert_host_owned_forwards_only_owners(facts: AlertHostOwnedFacts)
    ensures
        (facts.decide() is Forward || facts.decide() is CacheAndForward) ==> {
            &&& facts.session_user matches Some(s)
            &&& parsed_uuid(s@) matches Some(user)
            &&& facts.alert matches Some(a)
            &&& a.cid == user
            &&& ((facts.cached_owner)(a.host_uuid@) == Some(user)
                || (facts.ownership)(user, a.host_uuid@) == Some(true))
        },
        facts.decide() matches AlertHostOwnedRequest::CacheAndForward { host_uuid, user } ==> {
            &&& (facts.ownership)(user, host_uuid@) == Some(true)
            &&& facts.alert matches Some(a)
            &&& a.host_uuid == host_uuid
            &&& a.cid == user
        },
{
}

} // verus!
