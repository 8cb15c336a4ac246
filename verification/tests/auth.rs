use firebase_rest::auth::FirebaseAuthClient;

#[test]
fn sign_in_request_carries_credentials_and_key() {
    let c = FirebaseAuthClient::new("KEY".to_string());
    let r = c.sign_in_request("a@b.c", "pw");
    assert_eq!(r.url, "https://identitytoolkit.googleapis.com/v1/accounts:signInWithPassword?key=KEY");
    assert_eq!(r.body.email, "a@b.c");
    assert_eq!(r.body.password, "pw");
    assert!(r.body.return_secure_token);
}

#[test]
fn sign_up_request() {
    let c = FirebaseAuthClient::new("k2".to_string());
    let r = c.sign_up_request("x@y.z", "secret");
    assert_eq!(r.url, "https://identitytoolkit.googleapis.com/v1/accounts:signUp?key=k2");
    assert_eq!(r.body.email, "x@y.z");
    assert_eq!(r.body.password, "secret");
    assert!(r.body.return_secure_token);
}

#[test]
fn password_reset_request() {
    let c = FirebaseAuthClient::new("k".to_string());
    let r = c.password_reset_request("u@v.w");
    assert_eq!(r.url, "https://identitytoolkit.googleapis.com/v1/accounts:sendOobCode?key=k");
    assert_eq!(r.body.request_type, "PASSWORD_RESET");
    assert_eq!(r.body.email, "u@v.w");
}

#[test]
fn refresh_token_request() {
    let c = FirebaseAuthClient::new("k".to_string());
    let r = c.refresh_token_request("rt");
    assert_eq!(r.url, "https://securetoken.googleapis.com/v1/token?key=k");
    assert_eq!(r.body.grant_type, "refresh_token");
    assert_eq!(r.body.refresh_token, "rt");
}
