use speculare_server::oauth::{authorize_url, bearer, check_state, login_state};

#[test]
fn state_is_32_alphanumerics() {
    let a = login_state();
    let b = login_state();
    assert_eq!(a.chars().count(), 32);
    assert!(a.chars().all(|c| c.is_ascii_alphanumeric()));
    assert_ne!(a, b);
}

#[test]
fn authorize_url_layout() {
    assert_eq!(
        authorize_url("cid", "https://me/cb", "st"),
        "https://api.intra.42.fr/oauth/authorize?client_id=cid&redirect_uri=https://me/cb&response_type=code&scope=public&state=st"
    );
}

#[test]
fn callback_state_must_match() {
    assert!(check_state(&"abc".to_string(), &"abc".to_string()).is_ok());
    let e = check_state(&"abc".to_string(), &"abd".to_string()).unwrap_err();
    assert_eq!(e.message(), "Invalid state");
    assert_eq!(e.status_code(), 400);
}

#[test]
fn bearer_header() {
    assert_eq!(bearer("tok"), "Bearer tok");
}
