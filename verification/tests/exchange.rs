use firebase_rest::auth::{AuthErrorDetail, AuthErrorResponse, AuthResponse};
use firebase_rest::exchange::{
    is_success, Endpoint, Exchange, HttpStatus, ReplyAction, ReplyEvent, ReplyStage, ServiceError,
};
use firebase_rest::json::JsonValue;
use firebase_rest::stripe::{CheckoutSession, StripeError, StripeErrorDetail};

fn status(code: u16, text: &str) -> ReplyEvent<AuthResponse> {
    ReplyEvent::Sent(Ok(HttpStatus { code, text: text.to_string() }))
}

fn auth_response() -> AuthResponse {
    AuthResponse {
        id_token: "id".to_string(),
        email: "a@b.c".to_string(),
        refresh_token: "r".to_string(),
        expires_in: "3600".to_string(),
        local_id: "l".to_string(),
        registered: Some(true),
    }
}

fn fail_message<T>(a: ReplyAction<T>) -> String {
    match a {
        ReplyAction::Fail(e) => e.message,
        _ => panic!("expected a failure"),
    }
}

#[test]
fn success_range() {
    assert!(!is_success(199));
    assert!(is_success(200));
    assert!(is_success(204));
    assert!(is_success(299));
    assert!(!is_success(300));
    assert!(!is_success(404));
}

#[test]
fn sign_in_success_reads_and_delivers_the_body() {
    let mut x = Exchange::new(Endpoint::SignIn);
    assert_eq!(x.stage, ReplyStage::AwaitingStatus);
    assert_eq!(x.step(status(200, "200 OK")), ReplyAction::ReadSuccessBody);
    assert_eq!(x.stage, ReplyStage::AwaitingSuccessBody);
    assert_eq!(x.step(ReplyEvent::SuccessBody(Ok(auth_response()))), ReplyAction::Deliver(auth_response()));
    assert_eq!(x.stage, ReplyStage::Finished);
}

#[test]
fn transport_failure_messages() {
    let mut x = Exchange::new(Endpoint::SignUp);
    let a = x.step::<AuthResponse>(ReplyEvent::Sent(Err("timed out".to_string())));
    assert_eq!(fail_message(a), "Network error: timed out");
    assert_eq!(x.stage, ReplyStage::Finished);
    let mut s = Exchange::new(Endpoint::CreateCheckoutSession);
    let b = s.step::<CheckoutSession>(ReplyEvent::Sent(Err("dns".to_string())));
    assert_eq!(fail_message(b), "Stripe network error: dns");
}

#[test]
fn undecodable_success_body() {
    let mut x = Exchange::new(Endpoint::RefreshToken);
    x.step::<AuthResponse>(status(200, "200 OK"));
    let a = x.step::<AuthResponse>(ReplyEvent::SuccessBody(Err("missing field".to_string())));
    assert_eq!(fail_message(a), "Parse error: missing field");
    let mut s = Exchange::new(Endpoint::RetrieveSession);
    s.step::<CheckoutSession>(ReplyEvent::Sent(Ok(HttpStatus { code: 200, text: "200 OK".to_string() })));
    let b = s.step::<CheckoutSession>(ReplyEvent::SuccessBody(Err("eof".to_string())));
    assert_eq!(fail_message(b), "Stripe parse error: eof");
}

#[test]
fn auth_error_body_message_is_returned() {
    let mut x = Exchange::new(Endpoint::SignIn);
    assert_eq!(x.step(status(400, "400 Bad Request")), ReplyAction::ReadErrorBody);
    assert_eq!(x.stage, ReplyStage::AwaitingErrorBody);
    let report = ServiceError::Auth(AuthErrorResponse {
        error: AuthErrorDetail { code: 400, message: "EMAIL_NOT_FOUND".to_string() },
    });
    let a = x.step::<AuthResponse>(ReplyEvent::ErrorBody(Ok(report)));
    assert_eq!(fail_message(a), "EMAIL_NOT_FOUND");
    assert_eq!(x.stage, ReplyStage::Finished);
}

#[test]
fn undecodable_error_body() {
    let mut x = Exchange::new(Endpoint::SignIn);
    x.step::<AuthResponse>(status(500, "500 Internal Server Error"));
    let a = x.step::<AuthResponse>(ReplyEvent::ErrorBody(Err("not json".to_string())));
    assert_eq!(fail_message(a), "Error parse error: not json");
    let mut s = Exchange::new(Endpoint::CreateCheckoutSession);
    s.step::<CheckoutSession>(ReplyEvent::Sent(Ok(HttpStatus { code: 402, text: "402 Payment Required".to_string() })));
    let b = s.step::<CheckoutSession>(ReplyEvent::ErrorBody(Err("bad".to_string())));
    assert_eq!(fail_message(b), "Stripe error parse error: bad");
}

#[test]
fn stripe_error_body_message_is_returned() {
    let mut s = Exchange::new(Endpoint::RetrieveSession);
    s.step::<CheckoutSession>(ReplyEvent::Sent(Ok(HttpStatus { code: 404, text: "404 Not Found".to_string() })));
    let report = ServiceError::Stripe(StripeError {
        error: StripeErrorDetail { error_type: "invalid_request_error".to_string(), message: "No such session".to_string() },
    });
    let b = s.step::<CheckoutSession>(ReplyEvent::ErrorBody(Ok(report)));
    assert_eq!(fail_message(b), "No such session");
}

#[test]
fn password_reset_success_ends_without_a_body() {
    let mut x = Exchange::new(Endpoint::PasswordReset);
    assert_eq!(x.step::<()>(ReplyEvent::Sent(Ok(HttpStatus { code: 200, text: "200 OK".to_string() }))), ReplyAction::Accept);
    assert_eq!(x.stage, ReplyStage::Finished);
    let mut y = Exchange::new(Endpoint::PasswordReset);
    assert_eq!(
        y.step::<()>(ReplyEvent::Sent(Ok(HttpStatus { code: 400, text: "400 Bad Request".to_string() }))),
        ReplyAction::ReadErrorBody
    );
}

#[test]
fn firestore_failure_status_ends_with_its_text() {
    let mut x = Exchange::new(Endpoint::GetDocument);
    let a = x.step::<JsonValue>(ReplyEvent::Sent(Ok(HttpStatus { code: 404, text: "404 Not Found".to_string() })));
    assert_eq!(fail_message(a), "Firestore error: 404 Not Found");
    assert_eq!(x.stage, ReplyStage::Finished);
    let mut y = Exchange::new(Endpoint::ListDocuments);
    let b = y.step::<JsonValue>(ReplyEvent::Sent(Err("refused".to_string())));
    assert_eq!(fail_message(b), "Network error: refused");
    let mut z = Exchange::new(Endpoint::ListDocuments);
    assert_eq!(
        z.step::<JsonValue>(ReplyEvent::Sent(Ok(HttpStatus { code: 200, text: "200 OK".to_string() }))),
        ReplyAction::ReadSuccessBody
    );
    assert_eq!(z.step(ReplyEvent::SuccessBody(Ok(JsonValue::Null))), ReplyAction::Deliver(JsonValue::Null));
}
