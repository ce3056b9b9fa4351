use vstd::prelude::*;
use crate::reply::Reply;
use crate::text::{ascii_text, header_text, is_visible_ascii};

verus! {

/// Guard for `POST /api/hosts`: the API key sent in the `SPTK` header must
/// be registered for the host named by the query (`?uuid=`).
pub struct SptkValidator;

/// The guard as installed in front of a service.
pub struct SptkValidatorMiddleware;

/// An answer to the guard's pending request.
#[derive(Debug)]
pub enum SptkValidatorEvent {
    /// The raw bytes of the `SPTK` header, or `None` when there is none.
    Header(Option<Vec<u8>>),
    /// The host uuid read from the query string, or `None` when the query
    /// does not decode.
    HostUuid(Option<String>),
    /// The key the cache holds for the host.
    CachedKey(Option<String>),
    /// Whether a connection to the auth database could be taken.
    Connection(bool),
    /// The host the database has the key registered for (`Some(None)` when
    /// the key is registered for no host yet), or `None` when the lookup
    /// failed.
    KeyHost(Option<Option<String>>),
}

/// What the guard asks of its host next, or how it ends.
#[derive(Debug)]
pub enum SptkValidatorRequest {
    Header,
    HostUuid,
    CachedKey { host_uuid: String },
    Connection,
    /// Look up the key whose text is `header` (all visible ASCII).
    KeyHost { header: Vec<u8> },
    /// Pass the request on unchanged.
    Forward,
    /// Remember the key just looked up as the key of `host_uuid` in the
    /// cache, then pass the request on unchanged.
    CacheAndForward { host_uuid: String },
    /// Refuse the request.
    Refuse(Reply),
    /// End with the error of the failed database lookup.
    Fail,
}

/// Where one request stands in the guard.
#[derive(Debug)]
pub enum SptkValidatorState {
    AwaitHeader,
    AwaitHostUuid { header: Vec<u8> },
    AwaitCache { header: Vec<u8>, host_uuid: String },
    AwaitConnection { header: Vec<u8>, host_uuid: String },
    AwaitKeyHost { host_uuid: String },
    Done,
}

/// Every fact the guard may ask for during one request: the cache is read
/// as a function of the host, the database as a function of the key's text.
pub struct SptkValidatorFacts {
    pub header: Option<Vec<u8>>,
    pub host_uuid: Option<String>,
    pub cached_key: spec_fn(Seq<char>) -> Option<String>,
    pub connection: bool,
    pub key_host: spec_fn(Seq<char>) -> Option<Option<String>>,
}

/// The header value reads as text.
pub open spec fn readable(b: Seq<u8>) -> bool {
    forall|i: int| 0 <= i < b.len() ==> is_visible_ascii(#[trigger] b[i])
}

/// The cache holds, as key of the host, the text of the header `b`.
pub open spec fn cache_hit(cached: Option<String>, b: Seq<u8>) -> bool {
    &&& readable(b)
    &&& cached matches Some(k)
    &&& k@ == ascii_text(b)
}

impl SptkValidatorRequest {
    /// The request ends the guard's work.
    pub open spec fn is_final(self) -> bool {
        ||| self is Forward
        ||| self is CacheAndForward
        ||| self is Refuse
        ||| self is Fail
    }
}

impl SptkValidatorFacts {
    /// The answer these facts give to `req`.
    pub open spec fn answer(self, req: SptkValidatorRequest) -> SptkValidatorEvent {
        match req {
            SptkValidatorRequest::Header => SptkValidatorEvent::Header(self.header),
            SptkValidatorRequest::HostUuid => SptkValidatorEvent::HostUuid(self.host_uuid),
            SptkValidatorRequest::CachedKey { host_uuid } =>
                SptkValidatorEvent::CachedKey((self.cached_key)(host_uuid@)),
            SptkValidatorRequest::Connection => SptkValidatorEvent::Connection(self.connection),
            SptkValidatorRequest::KeyHost { header } =>
                SptkValidatorEvent::KeyHost((self.key_host)(ascii_text(header@))),
            _ => SptkValidatorEvent::Connection(false),
        }
    }

    /// How the guard ends a request about which these facts hold.
    pub open spec fn decide(self) -> SptkValidatorRequest {
        match self.header {
            None => SptkValidatorRequest::Refuse(Reply::BadRequest),
            Some(header) => match self.host_uuid {
                None => SptkValidatorRequest::Refuse(Reply::BadRequest),
                Some(host_uuid) => if !readable(header@) {
                    SptkValidatorRequest::Refuse(Reply::BadRequest)
                } else if cache_hit((self.cached_key)(host_uuid@), header@) {
                    SptkValidatorRequest::Forward
                } else if !self.connection {
                    SptkValidatorRequest::Refuse(Reply::InternalServerError)
                } else {
                    match (self.key_host)(ascii_text(header@)) {
                        None => SptkValidatorRequest::Fail,
                        Some(None) => SptkValidatorRequest::Refuse(Reply::PreconditionFailed),
                        Some(Some(h)) => if h@ == host_uuid@ {
                            SptkValidatorRequest::CacheAndForward { host_uuid }
                        } else {
                            SptkValidatorRequest::Refuse(Reply::Unauthorized)
                        },
                    }
                },
            },
        }
    }
}

impl SptkValidatorState {
    /// `e` answers the request the guard has pending in this state.
    pub open spec fn accepts(self, e: SptkValidatorEvent) -> bool {
        match self {
            SptkValidatorState::AwaitHeader => e is Header,
            SptkValidatorState::AwaitHostUuid { .. } => e is HostUuid,
            SptkValidatorState::AwaitCache { .. } => e is CachedKey,
            SptkValidatorState::AwaitConnection { .. } => e is Connection,
            SptkValidatorState::AwaitKeyHost { .. } => e is KeyHost,
            SptkValidatorState::Done => false,
        }
    }

    /// One step of the guard: the state it moves to and what it asks next.
    pub open spec fn next(self, e: SptkValidatorEvent) -> (SptkValidatorState, SptkValidatorRequest) {
        match (self, e) {
            (SptkValidatorState::AwaitHeader, SptkValidatorEvent::Header(h)) => match h {
                None => (SptkValidatorState::Done, SptkValidatorRequest::Refuse(Reply::BadRequest)),
                Some(header) => (SptkValidatorState::AwaitHostUuid { header }, SptkValidatorRequest::HostUuid),
            },
            (SptkValidatorState::AwaitHostUuid { header }, SptkValidatorEvent::HostUuid(h)) => match h {
                None => (SptkValidatorState::Done, SptkValidatorRequest::Refuse(Reply::BadRequest)),
                Some(host_uuid) => if readable(header@) {
                    (
                        SptkValidatorState::AwaitCache { header, host_uuid },
                        SptkValidatorRequest::CachedKey { host_uuid },
                    )
                } else {
                    (SptkValidatorState::Done, SptkValidatorRequest::Refuse(Reply::BadRequest))
                },
            },
            (SptkValidatorState::AwaitCache { header, host_uuid }, SptkValidatorEvent::CachedKey(cached)) =>
                if cache_hit(cached, header@) {
                    (SptkValidatorState::Done, SptkValidatorRequest::Forward)
                } else {
                    (SptkValidatorState::AwaitConnection { header, host_uuid }, SptkValidatorRequest::Connection)
                },
            (SptkValidatorState::AwaitConnection { header, host_uuid }, SptkValidatorEvent::Connection(ok)) => if ok {
                (SptkValidatorState::AwaitKeyHost { host_uuid }, SptkValidatorRequest::KeyHost { header })
            } else {
                (SptkValidatorState::Done, SptkValidatorRequest::Refuse(Reply::InternalServerError))
            },
            (SptkValidatorState::AwaitKeyHost { host_uuid }, SptkValidatorEvent::KeyHost(kh)) => match kh {
                None => (SptkValidatorState::Done, SptkValidatorRequest::Fail),
                Some(None) => (SptkValidatorState::Done, SptkValidatorRequest::Refuse(Reply::PreconditionFailed)),
                Some(Some(h)) => if h@ == host_uuid@ {
                    (SptkValidatorState::Done, SptkValidatorRequest::CacheAndForward { host_uuid })
                } else {
                    (SptkValidatorState::Done, SptkValidatorRequest::Refuse(Reply::Unauthorized))
                },
            },
            (s, _) => (s, SptkValidatorRequest::Fail),
        }
    }

    /// The final request reached by answering from `facts`, within `fuel` steps.
    pub open spec fn run(self, req: SptkValidatorRequest, facts: SptkValidatorFacts, fuel: nat) -> Option<SptkValidatorRequest>
        decreases fuel,
    {
        if req.is_final() {
            Some(req)
        } else if fuel == 0 {
            None
        } else {
            let (s, r) = self.next(facts.answer(req));
            s.run(r, facts, (fuel - 1) as nat)
        }
    }

    /// Moves the guard on with the answer `e` to its pending request.
    pub fn step(self, e: SptkValidatorEvent) -> (r: (SptkValidatorState, SptkValidatorRequest))
        requires
            self.accepts(e),
        ensures
            r == self.next(e),
    {
        match (self, e) {
            (SptkValidatorState::AwaitHeader, SptkValidatorEvent::Header(h)) => match h {
                None => (SptkValidatorState::Done, SptkValidatorRequest::Refuse(Reply::BadRequest)),
                Some(header) => (SptkValidatorState::AwaitHostUuid { header }, SptkValidatorRequest::HostUuid),
            },
            (SptkValidatorState::AwaitHostUuid { header }, SptkValidatorEvent::HostUuid(h)) => match h {
                None => (SptkValidatorState::Done, SptkValidatorRequest::Refuse(Reply::BadRequest)),
                Some(host_uuid) => match header_text(&header) {
                    Some(_) => {
                        let h = host_uuid.clone();
                        (SptkValidatorState::AwaitCache { header, host_uuid }, SptkValidatorRequest::CachedKey { host_uuid: h })
                    },
                    None => (SptkValidatorState::Done, SptkValidatorRequest::Refuse(Reply::BadRequest)),
                },
            },
            (SptkValidatorState::AwaitCache { header, host_uuid }, SptkValidatorEvent::CachedKey(cached)) => {
                let hit = match (&cached, header_text(&header)) {
                    (Some(k), Some(text)) => *k == text,
                    _ => false,
                };
                if hit {
                    (SptkValidatorState::Done, SptkValidatorRequest::Forward)
                } else {
                    (SptkValidatorState::AwaitConnection { header, host_uuid }, SptkValidatorRequest::Connection)
                }
            },
            (SptkValidatorState::AwaitConnection { header, host_uuid }, SptkValidatorEvent::Connection(ok)) => if ok {
                (SptkValidatorState::AwaitKeyHost { host_uuid }, SptkValidatorRequest::KeyHost { header })
            } else {
                (SptkValidatorState::Done, SptkValidatorRequest::Refuse(Reply::InternalServerError))
            },
            (SptkValidatorState::AwaitKeyHost { host_uuid }, SptkValidatorEvent::KeyHost(kh)) => match kh {
                None => (SptkValidatorState::Done, SptkValidatorRequest::Fail),
                Some(None) => (SptkValidatorState::Done, SptkValidatorRequest::Refuse(Reply::PreconditionFailed)),
                Some(Some(h)) => if h == host_uuid {
                    (SptkValidatorState::Done, SptkValidatorRequest::CacheAndForward { host_uuid })
                } else {
                    (SptkValidatorState::Done, SptkValidatorRequest::Refuse(Reply::Unauthorized))
                },
            },
            (s, _) => (s, SptkValidatorRequest::Fail),
        }
    }
}

impl SptkValidator {
    /// Installs the guard in front of a service.
    pub fn new_transform(&self) -> (r: SptkValidatorMiddleware)
        ensures
            r == SptkValidatorMiddleware,
    {
        SptkValidatorMiddleware
    }
}

impl SptkValidatorMiddleware {
    /// Starts the guard's work on one request: it first asks for the header.
    pub fn call(&self) -> (r: (SptkValidatorState, SptkValidatorRequest))
        ensures
            r == (SptkValidatorState::AwaitHeader, SptkValidatorRequest::Header),
    {
        (SptkValidatorState::AwaitHeader, SptkValidatorRequest::Header)
    }
}

/// Answering the guard's requests from a fixed set of facts ends, within
/// five steps, in exactly the decision those facts call for.
pub proof fn lemma_sptk_validator_decides(facts: SptkValidatorFacts)
    ensures
        SptkValidatorState::AwaitHeader.run(SptkValidatorRequest::Header, facts, 5) == Some(facts.decide()),
{
    reveal_with_fuel(SptkValidatorState::run, 6);
}

/// The guard passes a request on only when the header holds a key in
/// readable text and, by the cache or by the database, that key is the key
/// of the host named in the query; it caches only what the database
/// confirmed.
pub proof fn lemma_sptk_validator_forwards_only_keys_of_host(facts: SptkValidatorFacts)
    ensures
        facts.decide() is Forward ==> {
            &&& facts.header matches Some(h)
            &&& facts.host_uuid matches Some(host)
            &&& cache_hit((facts.cached_key)(host@), h@)
        },
        facts.decide() is CacheAndForward ==> {
            &&& facts.header matches Some(h)
            &&& readable(h@)
            &&& facts.host_uuid matches Some(host)
            &&& (facts.key_host)(ascii_text(h@)) matches Some(Some(k))
            &&& k@ == host@
            &&& facts.decide() == SptkValidatorRequest::CacheAndForward { host_uuid: host }
        },
{
}

} // verus!
