use speculare_server::auth::alert_host_owned::{AlertHostOwned, AlertHostOwnedEvent, AlertHostOwnedRequest, AlertRef};
use speculare_server::auth::alert_owned::{AlertOwned, AlertOwnedEvent, AlertOwnedRequest};
use speculare_server::auth::check_cookies::{CheckCookies, CheckCookiesEvent, CheckCookiesRequest};
use speculare_server::auth::check_sessions::{CheckSessions, CheckSessionsEvent, CheckSessionsRequest, CheckSessionsState};
use speculare_server::auth::sptk_validator::{SptkValidator, SptkValidatorEvent, SptkValidatorRequest};
use speculare_server::reply::Reply;

const USER: &str = "550e8400-e29b-41d4-a716-446655440000";
const USER_ID: u128 = 0x550e8400e29b41d4a716446655440000;

fn host_owned_run(
    session: Option<&str>,
    conn: bool,
    alert: Option<(u128, &str)>,
    cached: Option<u128>,
    owned: Option<bool>,
) -> (AlertHostOwnedRequest, Vec<String>) {
    let mut asked = Vec::new();
    let (mut state, mut req) = AlertHostOwned.new_transform().call();
    loop {
        let event = match &req {
            AlertHostOwnedRequest::SessionUser => AlertHostOwnedEvent::SessionUser(session.map(|s| s.to_string())),
            AlertHostOwnedRequest::Connection => AlertHostOwnedEvent::Connection(conn),
            AlertHostOwnedRequest::Alert => AlertHostOwnedEvent::Alert(
                alert.map(|(cid, h)| AlertRef { cid, host_uuid: h.to_string() }),
            ),
            AlertHostOwnedRequest::CachedOwner { host_uuid } => {
                asked.push(format!("cache {}", host_uuid));
                AlertHostOwnedEvent::CachedOwner(cached)
            }
            AlertHostOwnedRequest::Ownership { user, host_uuid } => {
                asked.push(format!("db {:x} {}", user, host_uuid));
                AlertHostOwnedEvent::Ownership(owned)
            }
            _ => return (req, asked),
        };
        let (s, r) = state.step(event);
        state = s;
        req = r;
    }
}

#[test]
fn alert_host_owned_cache_hit_forwards() {
    let (r, asked) = host_owned_run(Some(USER), true, Some((USER_ID, "h1")), Some(USER_ID), None);
    assert!(matches!(r, AlertHostOwnedRequest::Forward));
    assert_eq!(asked, vec!["cache h1".to_string()]);
}

#[test]
fn alert_host_owned_db_confirms_and_caches() {
    let (r, asked) = host_owned_run(Some(USER), true, Some((USER_ID, "h1")), None, Some(true));
    match r {
        AlertHostOwnedRequest::CacheAndForward { host_uuid, user } => {
            assert_eq!(host_uuid, "h1");
            assert_eq!(user, USER_ID);
        }
        other => panic!("unexpected {:?}", other),
    }
    assert_eq!(asked[1], format!("db {:x} h1", USER_ID));
}

#[test]
fn alert_host_owned_refusals() {
    let bad = |r: AlertHostOwnedRequest| matches!(r, AlertHostOwnedRequest::Refuse(Reply::BadRequest));
    assert!(bad(host_owned_run(None, true, None, None, None).0));
    assert!(bad(host_owned_run(Some("nope"), true, None, None, None).0));
    assert!(bad(host_owned_run(Some(USER), true, None, None, None).0));
    assert!(bad(host_owned_run(Some(USER), true, Some((7, "h1")), None, None).0));
    assert!(matches!(
        host_owned_run(Some(USER), false, None, None, None).0,
        AlertHostOwnedRequest::Refuse(Reply::InternalServerError)
    ));
    assert!(matches!(
        host_owned_run(Some(USER), true, Some((USER_ID, "h1")), Some(7), Some(false)).0,
        AlertHostOwnedRequest::Refuse(Reply::Unauthorized)
    ));
    assert!(matches!(
        host_owned_run(Some(USER), true, Some((USER_ID, "h1")), None, None).0,
        AlertHostOwnedRequest::Fail
    ));
}

fn alert_owned_run(session: Option<&str>, id: Option<i64>, conn: bool, owned: Option<bool>) -> AlertOwnedRequest {
    let (mut state, mut req) = AlertOwned.new_transform().call();
    loop {
        let event = match &req {
            AlertOwnedRequest::SessionUser => AlertOwnedEvent::SessionUser(session.map(|s| s.to_string())),
            AlertOwnedRequest::AlertId => AlertOwnedEvent::AlertId(id),
            AlertOwnedRequest::Connection => AlertOwnedEvent::Connection(conn),
            AlertOwnedRequest::Ownership { user, alert_id } => {
                assert_eq!(*user, USER_ID);
                assert_eq!(Some(*alert_id), id);
                AlertOwnedEvent::Ownership(owned)
            }
            _ => return req,
        };
        let (s, r) = state.step(event);
        state = s;
        req = r;
    }
}

#[test]
fn alert_owned_decisions() {
    assert!(matches!(alert_owned_run(Some(USER), Some(4), true, Some(true)), AlertOwnedRequest::Forward));
    assert!(matches!(
        alert_owned_run(Some(USER), Some(4), true, Some(false)),
        AlertOwnedRequest::Refuse(Reply::Unauthorized)
    ));
    assert!(matches!(alert_owned_run(Some(USER), Some(4), true, None), AlertOwnedRequest::Fail));
    assert!(matches!(
        alert_owned_run(Some(USER), Some(4), false, None),
        AlertOwnedRequest::Refuse(Reply::InternalServerError)
    ));
    assert!(matches!(alert_owned_run(Some(USER), None, true, None), AlertOwnedRequest::Refuse(Reply::BadRequest)));
    assert!(matches!(alert_owned_run(Some("x"), Some(4), true, None), AlertOwnedRequest::Refuse(Reply::BadRequest)));
    assert!(matches!(alert_owned_run(None, Some(4), true, None), AlertOwnedRequest::Refuse(Reply::BadRequest)));
}

fn check_sessions_run(
    session: Option<&str>,
    host: Option<&str>,
    pool: bool,
    conn: bool,
    owned: Option<bool>,
) -> CheckSessionsRequest {
    let (mut state, mut req) = CheckSessions.new_transform().call();
    loop {
        let event = match &req {
            CheckSessionsRequest::SessionUser => CheckSessionsEvent::SessionUser(session.map(|s| s.to_string())),
            CheckSessionsRequest::HostUuid => CheckSessionsEvent::HostUuid(host.map(|s| s.to_string())),
            CheckSessionsRequest::AuthPool => CheckSessionsEvent::AuthPool(pool),
            CheckSessionsRequest::Connection => CheckSessionsEvent::Connection(conn),
            CheckSessionsRequest::Ownership { host_uuid, .. } => {
                assert_eq!(Some(host_uuid.as_str()), host);
                CheckSessionsEvent::Ownership(owned)
            }
            _ => return req,
        };
        let (s, r) = state.step(event);
        state = s;
        req = r;
    }
}

#[test]
fn check_sessions_decisions() {
    match check_sessions_run(Some(USER), Some("h"), true, true, Some(true)) {
        CheckSessionsRequest::ForwardAs { user } => assert_eq!(user, USER_ID),
        other => panic!("unexpected {:?}", other),
    }
    assert!(matches!(
        check_sessions_run(Some(USER), Some("h"), true, true, Some(false)),
        CheckSessionsRequest::Refuse(Reply::Unauthorized)
    ));
    assert!(matches!(check_sessions_run(Some(USER), Some("h"), true, true, None), CheckSessionsRequest::Fail));
    assert!(matches!(
        check_sessions_run(Some(USER), Some("h"), false, true, None),
        CheckSessionsRequest::Refuse(Reply::InternalServerError)
    ));
    assert!(matches!(
        check_sessions_run(Some(USER), Some("h"), true, false, None),
        CheckSessionsRequest::Refuse(Reply::InternalServerError)
    ));
    assert!(matches!(check_sessions_run(Some(USER), None, true, true, None), CheckSessionsRequest::Refuse(Reply::BadRequest)));
    assert!(matches!(check_sessions_run(None, Some("h"), true, true, None), CheckSessionsRequest::Refuse(Reply::BadRequest)));
    // A user id that is not a UUID is only refused by a failure to connect.
    assert!(matches!(
        check_sessions_run(Some("x"), Some("h"), true, false, None),
        CheckSessionsRequest::Refuse(Reply::InternalServerError)
    ));
}

#[test]
fn check_sessions_keeps_unparsed_user() {
    let (state, _) = CheckSessions.new_transform().call();
    let (state, _) = state.step(CheckSessionsEvent::SessionUser(Some("x".to_string())));
    let (state, _) = state.step(CheckSessionsEvent::HostUuid(Some("h".to_string())));
    let (state, _) = state.step(CheckSessionsEvent::AuthPool(true));
    assert!(matches!(state, CheckSessionsState::AwaitConnection { user: None, .. }));
}

fn check_cookies_run(
    session: Option<&str>,
    data: bool,
    conn: bool,
    host: Option<&str>,
    owned: Option<Option<bool>>,
) -> CheckCookiesRequest {
    let (mut state, mut req) = CheckCookies.new_transform().call();
    loop {
        let event = match &req {
            CheckCookiesRequest::SessionUser => CheckCookiesEvent::SessionUser(session.map(|s| s.to_string())),
            CheckCookiesRequest::AppData => CheckCookiesEvent::AppData(data),
            CheckCookiesRequest::Connection => CheckCookiesEvent::Connection(conn),
            CheckCookiesRequest::HostUuid => CheckCookiesEvent::HostUuid(host.map(|s| s.to_string())),
            CheckCookiesRequest::Ownership { user, host_uuid } => {
                assert_eq!(Some(user.as_str()), session);
                assert_eq!(Some(host_uuid.as_str()), host);
                CheckCookiesEvent::Ownership(owned)
            }
            _ => return req,
        };
        let (s, r) = state.step(event);
        state = s;
        req = r;
    }
}

#[test]
fn check_cookies_decisions() {
    assert!(matches!(check_cookies_run(Some("u"), true, true, Some("h"), Some(Some(true))), CheckCookiesRequest::Forward));
    assert!(matches!(
        check_cookies_run(Some("u"), true, true, Some("h"), Some(Some(false))),
        CheckCookiesRequest::Refuse(Reply::Unauthorized)
    ));
    assert!(matches!(
        check_cookies_run(Some("u"), true, true, Some("h"), Some(None)),
        CheckCookiesRequest::Refuse(Reply::InternalServerError)
    ));
    assert!(matches!(check_cookies_run(Some("u"), true, true, Some("h"), None), CheckCookiesRequest::Fail));
    assert!(matches!(check_cookies_run(Some("u"), true, true, None, None), CheckCookiesRequest::Refuse(Reply::BadRequest)));
    assert!(matches!(
        check_cookies_run(Some("u"), false, true, Some("h"), None),
        CheckCookiesRequest::Refuse(Reply::InternalServerError)
    ));
    assert!(matches!(check_cookies_run(None, true, true, Some("h"), None), CheckCookiesRequest::Refuse(Reply::BadRequest)));
}

fn sptk_run(
    header: Option<&[u8]>,
    host: Option<&str>,
    cached: Option<&str>,
    conn: bool,
    key_host: Option<Option<&str>>,
) -> (SptkValidatorRequest, Option<Vec<u8>>) {
    let mut looked_up = None;
    let (mut state, mut req) = SptkValidator.new_transform().call();
    loop {
        let event = match &req {
            SptkValidatorRequest::Header => SptkValidatorEvent::Header(header.map(|h| h.to_vec())),
            SptkValidatorRequest::HostUuid => SptkValidatorEvent::HostUuid(host.map(|s| s.to_string())),
            SptkValidatorRequest::CachedKey { host_uuid } => {
                assert_eq!(Some(host_uuid.as_str()), host);
                SptkValidatorEvent::CachedKey(cached.map(|s| s.to_string()))
            }
            SptkValidatorRequest::Connection => SptkValidatorEvent::Connection(conn),
            SptkValidatorRequest::KeyHost { header } => {
                looked_up = Some(header.clone());
                SptkValidatorEvent::KeyHost(key_host.map(|k| k.map(|s| s.to_string())))
            }
            _ => return (req, looked_up),
        };
        let (s, r) = state.step(event);
        state = s;
        req = r;
    }
}

#[test]
fn sptk_cache_hit_forwards() {
    let (r, looked) = sptk_run(Some(b"KEY1"), Some("h"), Some("KEY1"), true, None);
    assert!(matches!(r, SptkValidatorRequest::Forward));
    assert!(looked.is_none());
}

#[test]
fn sptk_db_confirms_and_caches() {
    let (r, looked) = sptk_run(Some(b"KEY1"), Some("h"), Some("OTHER"), true, Some(Some("h")));
    match r {
        SptkValidatorRequest::CacheAndForward { host_uuid } => assert_eq!(host_uuid, "h"),
        other => panic!("unexpected {:?}", other),
    }
    assert_eq!(looked, Some(b"KEY1".to_vec()));
}

#[test]
fn sptk_refusals() {
    assert!(matches!(sptk_run(None, Some("h"), None, true, None).0, SptkValidatorRequest::Refuse(Reply::BadRequest)));
    assert!(matches!(sptk_run(Some(b"K"), None, None, true, None).0, SptkValidatorRequest::Refuse(Reply::BadRequest)));
    assert!(matches!(
        sptk_run(Some(&[b'K', 0x80]), Some("h"), None, true, None).0,
        SptkValidatorRequest::Refuse(Reply::BadRequest)
    ));
    assert!(matches!(
        sptk_run(Some(b"K"), Some("h"), None, false, None).0,
        SptkValidatorRequest::Refuse(Reply::InternalServerError)
    ));
    assert!(matches!(sptk_run(Some(b"K"), Some("h"), None, true, None).0, SptkValidatorRequest::Fail));
    let (r, _) = sptk_run(Some(b"K"), Some("h"), None, true, Some(None));
    assert!(matches!(r, SptkValidatorRequest::Refuse(Reply::PreconditionFailed)));
    assert_eq!(Reply::PreconditionFailed.status(), 412);
    assert!(matches!(
        sptk_run(Some(b"K"), Some("h"), None, true, Some(Some("other"))).0,
        SptkValidatorRequest::Refuse(Reply::Unauthorized)
    ));
}

#[test]
fn reply_statuses() {
    assert_eq!(Reply::BadRequest.status(), 400);
    assert_eq!(Reply::Unauthorized.status(), 401);
    assert_eq!(Reply::InternalServerError.status(), 500);
}
