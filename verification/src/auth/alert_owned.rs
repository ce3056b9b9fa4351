use vstd::prelude::*;
use crate::ids::{parsed_uuid, parse_uuid};
use crate::reply::Reply;

verus! {

/// Guard for `PATCH` and `DELETE /api/alerts`: the alert named by the query
/// (`?id=`) must belong to the logged-in user.
pub struct AlertOwned;

/// The guard as installed in front of a service.
pub struct AlertOwnedMiddleware;

/// An answer to the guard's pending request.
#[derive(Debug)]
pub enum AlertOwnedEvent {
    /// The session's `user_id`, or `None` when it is missing or unreadable.
    SessionUser(Option<String>),
    /// The alert id read from the query string, or `None` when the query
    /// does not decode.
    AlertId(Option<i64>),
    /// Whether a connection to the metrics database could be taken.
    Connection(bool),
    /// Whether the database has the alert as owned by the user, or `None`
    /// when the lookup failed.
    Ownership(Option<bool>),
}

/// What the guard asks of its host next, or how it ends.
#[derive(Debug)]
pub enum AlertOwnedRequest {
    SessionUser,
    AlertId,
    Connection,
    Ownership { user: u128, alert_id: i64 },
    /// Pass the request on unchanged.
    Forward,
    /// Refuse the request.
    Refuse(Reply),
    /// End with the error of the failed database lookup.
    Fail,
}

/// Where one request stands in the guard.
#[derive(Debug)]
pub enum AlertOwnedState {
    AwaitSession,
    AwaitAlertId { user: u128 },
    AwaitConnection { user: u128, alert_id: i64 },
    AwaitOwnership { user: u128, alert_id: i64 },
    Done,
}

/// Every fact the guard may ask for during one request: the database is
/// read as a function of the user and the alert id.
pub struct AlertOwnedFacts {
    pub session_user: Option<String>,
    pub alert_id: Option<i64>,
    pub connection: bool,
    pub ownership: spec_fn(u128, i64) -> Option<bool>,
}

impl AlertOwnedRequest {
    /// The request ends the guard's work.
    pub open spec fn is_final(self) -> bool {
        ||| self is Forward
        ||| self is Refuse
        ||| self is Fail
    }
}

impl AlertOwnedFacts {
    /// The answer these facts give to `req`.
    pub open spec fn answer(self, req: AlertOwnedRequest) -> AlertOwnedEvent {
        match req {
            AlertOwnedRequest::SessionUser => AlertOwnedEvent::SessionUser(self.session_user),
            AlertOwnedRequest::AlertId => AlertOwnedEvent::AlertId(self.alert_id),
            AlertOwnedRequest::Connection => AlertOwnedEvent::Connection(self.connection),
            AlertOwnedRequest::Ownership { user, alert_id } =>
                AlertOwnedEvent::Ownership((self.ownership)(user, alert_id)),
            _ => AlertOwnedEvent::Connection(false),
        }
    }

    /// How the guard ends a request about which these facts hold.
    pub open spec fn decide(self) -> AlertOwnedRequest {
        match self.session_user {
            None => AlertOwnedRequest::Refuse(Reply::BadRequest),
            Some(s) => match parsed_uuid(s@) {
                None => AlertOwnedRequest::Refuse(Reply::BadRequest),
                Some(user) => match self.alert_id {
                    None => AlertOwnedRequest::Refuse(Reply::BadRequest),
                    Some(alert_id) => if !self.connection {
                        AlertOwnedRequest::Refuse(Reply::InternalServerError)
                    } else {
                        match (self.ownership)(user, alert_id) {
                            None => AlertOwnedRequest::Fail,
                            Some(true) => AlertOwnedRequest::Forward,
                            Some(false) => AlertOwnedRequest::Refuse(Reply::Unauthorized),
                        }
                    },
                },
            },
        }
    }
}

impl AlertOwnedState {
    /// `e` answers the request the guard has pending in this state.
    pub open spec fn accepts(self, e: AlertOwnedEvent) -> bool {
        match self {
            AlertOwnedState::AwaitSession => e is SessionUser,
            AlertOwnedState::AwaitAlertId { .. } => e is AlertId,
            AlertOwnedState::AwaitConnection { .. } => e is Connection,
            AlertOwnedState::AwaitOwnership { .. } => e is Ownership,
            AlertOwnedState::Done => false,
        }
    }

    /// One step of the guard: the state it moves to and what it asks next.
    pub open spec fn next(self, e: AlertOwnedEvent) -> (AlertOwnedState, AlertOwnedRequest) {
        match (self, e) {
            (AlertOwnedState::AwaitSession, AlertOwnedEvent::SessionUser(session)) => match session {
                None => (AlertOwnedState::Done, AlertOwnedRequest::Refuse(Reply::BadRequest)),
                Some(s) => match parsed_uuid(s@) {
                    None => (AlertOwnedState::Done, AlertOwnedRequest::Refuse(Reply::BadRequest)),
                    Some(user) => (AlertOwnedState::AwaitAlertId { user }, AlertOwnedRequest::AlertId),
                },
            },
            (AlertOwnedState::AwaitAlertId { user }, AlertOwnedEvent::AlertId(id)) => match id {
                None => (AlertOwnedState::Done, AlertOwnedRequest::Refuse(Reply::BadRequest)),
                Some(alert_id) => (AlertOwnedState::AwaitConnection { user, alert_id }, AlertOwnedRequest::Connection),
            },
            (AlertOwnedState::AwaitConnection { user, alert_id }, AlertOwnedEvent::Connection(ok)) => if ok {
                (AlertOwnedState::AwaitOwnership { user, alert_id }, AlertOwnedRequest::Ownership { user, alert_id })
            } else {
                (AlertOwnedState::Done, AlertOwnedRequest::Refuse(Reply::InternalServerError))
            },
            (AlertOwnedState::AwaitOwnership { .. }, AlertOwnedEvent::Ownership(owned)) => match owned {
                None => (AlertOwnedState::Done, AlertOwnedRequest::Fail),
                Some(true) => (AlertOwnedState::Done, AlertOwnedRequest::Forward),
                Some(false) => (AlertOwnedState::Done, AlertOwnedRequest::Refuse(Reply::Unauthorized)),
            },
            (s, _) => (s, AlertOwnedRequest::Fail),
        }
    }

    /// The final request reached by answering from `facts`, within `fuel` steps.
    pub open spec fn run(self, req: AlertOwnedRequest, facts: AlertOwnedFacts, fuel: nat) -> Option<AlertOwnedRequest>
        decreases fuel,
    {
        if req.is_final() {
            Some(req)
        } else if fuel == 0 {
            None
        } else {
            let (s, r) = self.next(facts.answer(req));
            s.run(r, facts, (fuel - 1) as nat)
        }
    }

    /// Moves the guard on with the answer `e` to its pending request.
    pub fn step(self, e: AlertOwnedEvent) -> (r: (AlertOwnedState, AlertOwnedRequest))
        requires
            self.accepts(e),
        ensures
            r == self.next(e),
    {
        match (self, e) {
            (AlertOwnedState::AwaitSession, AlertOwnedEvent::SessionUser(session)) => match session {
                None => (AlertOwnedState::Done, AlertOwnedRequest::Refuse(Reply::BadRequest)),
                Some(s) => match parse_uuid(s.as_str()) {
                    None => (AlertOwnedState::Done, AlertOwnedRequest::Refuse(Reply::BadRequest)),
                    Some(user) => (AlertOwnedState::AwaitAlertId { user }, AlertOwnedRequest::AlertId),
                },
            },
            (AlertOwnedState::AwaitAlertId { user }, AlertOwnedEvent::AlertId(id)) => match id {
                None => (AlertOwnedState::Done, AlertOwnedRequest::Refuse(Reply::BadRequest)),
                Some(alert_id) => (AlertOwnedState::AwaitConnection { user, alert_id }, AlertOwnedRequest::Connection),
            },
            (AlertOwnedState::AwaitConnection { user, alert_id }, AlertOwnedEvent::Connection(ok)) => if ok {
                (AlertOwnedState::AwaitOwnership { user, alert_id }, AlertOwnedRequest::Ownership { user, alert_id })
            } else {
                (AlertOwnedState::Done, AlertOwnedRequest::Refuse(Reply::InternalServerError))
            },
            (AlertOwnedState::AwaitOwnership { .. }, AlertOwnedEvent::Ownership(owned)) => match owned {
                None => (AlertOwnedState::Done, AlertOwnedRequest::Fail),
                Some(true) => (AlertOwnedState::Done, AlertOwnedRequest::Forward),
                Some(false) => (AlertOwnedState::Done, AlertOwnedRequest::Refuse(Reply::Unauthorized)),
            },
            (s, _) => (s, AlertOwnedRequest::Fail),
        }
    }
}

impl AlertOwned {
    /// Installs the guard in front of a service.
    pub fn new_transform(&self) -> (r: AlertOwnedMiddleware)
        ensures
            r == AlertOwnedMiddleware,
    {
        AlertOwnedMiddleware
    }
}

impl AlertOwnedMiddleware {
    /// Starts the guard's work on one request: it first asks for the session.
    pub fn call(&self) -> (r: (AlertOwnedState, AlertOwnedRequest))
        ensures
            r == (AlertOwnedState::AwaitSession, AlertOwnedRequest::SessionUser),
    {
        (AlertOwnedState::AwaitSession, AlertOwnedRequest::SessionUser)
    }
}

/// Answering the guard's requests from a fixed set of facts ends, within
/// four steps, in exactly the decision those facts call for.
pub proof fn lemma_alert_owned_decides(facts: AlertOwnedFacts)
    ensures
        AlertOwnedState::AwaitSession.run(AlertOwnedRequest::SessionUser, facts, 4) == Some(facts.decide()),
{
    reveal_with_fuel(AlertOwnedState::run, 5);
}

/// The guard passes a request on only when the session names a user, the
/// query names an alert, and the database has that alert as the user's.
pub proof fn lemma_alert_owned_forwards_only_owners(facts: AlertOwnedFacts)
    ensures
        facts.decide() is Forward ==> {
            &&& facts.session_user matches Some(s)
            &&& parsed_uuid(s@) matches Some(user)
            &&& facts.alert_id matches Some(id)
            &&& (facts.ownership)(user, id) == Some(true)
        },
{
}

} // verus!
