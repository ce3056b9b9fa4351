//! The login through the 42 intranet's OAuth service.

use vstd::prelude::*;
use crate::errors::{AppError, AppErrorType};
use crate::text::push_char;

verus! {

broadcast use vstd::string::group_string_axioms;

/// The query of the OAuth callback.
#[derive(Debug)]
pub struct OauthCallback {
    pub state: String,
    pub code: String,
}

/// The token the OAuth service hands back for a code.
#[derive(Debug)]
pub struct AccessToken {
    pub access_token: String,
}

/// What the intranet tells of the logged-in user.
#[derive(Debug)]
pub struct MeInfo {
    pub login: String,
    pub staff: bool,
}

/// A character `rand`'s `Alphanumeric` distribution draws: an ASCII letter
/// or digit.
pub open spec fn is_alphanumeric(c: char) -> bool {
    ('A' <= c && c <= 'Z') || ('a' <= c && c <= 'z') || ('0' <= c && c <= '9')
}

/// Draws one character from `rand::distributions::Alphanumeric` with the
/// thread's generator. Trusted: the character is an ASCII letter or digit,
/// as the distribution's source shows; which one is left to chance.
#[verifier::external_body]
fn random_alphanumeric() -> (c: char)
    ensures
        is_alphanumeric(c),
{
    rand::Rng::sample(&mut rand::thread_rng(), rand::distributions::Alphanumeric)
}

/// A fresh `state` for the OAuth exchange: 32 random ASCII letters and
/// digits.
pub fn login_state() -> (r: String)
    ensures
        r@.len() == 32,
        forall|i: int| 0 <= i < 32 ==> is_alphanumeric(#[trigger] r@[i]),
{
    let mut state = String::new();
    let mut i: usize = 0;
    while i < 32
        invariant
            i <= 32,
            state@.len() == i,
            forall|j: int| 0 <= j < i ==> is_alphanumeric(#[trigger] state@[j]),
        decreases 32 - i,
    {
        let c = random_alphanumeric();
        push_char(&mut state, c);
        i = i + 1;
    }
    state
}

/// The address the login redirects to: the intranet's authorization page
/// for this client, with the callback address and the state.
pub open spec fn authorize_url_of(client_id: Seq<char>, redirect_uri: Seq<char>, state: Seq<char>) -> Seq<char> {
    "https://api.intra.42.fr/oauth/authorize?client_id="@ + client_id + "&redirect_uri="@ + redirect_uri
        + "&response_type=code&scope=public&state="@ + state
}

/// The address ends with the whole state, after a part that does not
/// depend on the state: reading back what follows that part gives the state
/// stored in the session.
pub proof fn lemma_authorize_url_carries_whole_state(client_id: Seq<char>, redirect_uri: Seq<char>, state: Seq<char>)
    ensures
        authorize_url_of(client_id, redirect_uri, state) == authorize_url_of(client_id, redirect_uri, Seq::empty())
            + state,
        authorize_url_of(client_id, redirect_uri, state).skip(
            authorize_url_of(client_id, redirect_uri, Seq::empty()).len() as int,
        ) == state,
{
    let base = authorize_url_of(client_id, redirect_uri, Seq::empty());
    assert(base + Seq::<char>::empty() =~= base);
    assert(authorize_url_of(client_id, redirect_uri, state) =~= base + state);
    assert((base + state).skip(base.len() as int) =~= state);
}

/// Builds the address the login redirects to.
pub fn authorize_url(client_id: &str, redirect_uri: &str, state: &str) -> (r: String)
    ensures
        r@ == authorize_url_of(client_id@, redirect_uri@, state@),
{
    let mut url = "https://api.intra.42.fr/oauth/authorize?client_id=".to_string();
    url.append(client_id);
    url.append("&redirect_uri=");
    url.append(redirect_uri);
    url.append("&response_type=code&scope=public&state=");
    url.append(state);
    url
}

/// The callback goes on only with the state that the login stored in the
/// session; another state is an `InvalidRequest` error.
pub fn check_state(session_state: &String, query_state: &String) -> (r: Result<(), AppError>)
    ensures
        session_state@ == query_state@ ==> r is Ok,
        session_state@ != query_state@ ==> (r matches Err(e) && e.is_invalid_request("Invalid state"@)),
{
    if *session_state != *query_state {
        Err(AppError::with_message("Invalid state", AppErrorType::InvalidRequest))
    } else {
        Ok(())
    }
}

/// The `Authorization` header value that presents `token`.
pub fn bearer(token: &str) -> (r: String)
    ensures
        r@ == "Bearer "@ + token@,
{
    let mut h = "Bearer ".to_string();
    h.append(token);
    h
}

} // verus!
