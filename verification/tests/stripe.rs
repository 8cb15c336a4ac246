use firebase_rest::stripe::StripeClient;

#[test]
fn checkout_session_request_form() {
    let c = StripeClient::new("sk_test".to_string());
    let r = c.checkout_session_request("price_1", "https://ok", "https://cancel");
    assert_eq!(r.url, "https://api.stripe.com/v1/checkout/sessions");
    assert_eq!(r.user, "sk_test");
    let form: Vec<(&str, &str)> = r.form.iter().map(|(k, v)| (k.as_str(), v.as_str())).collect();
    assert_eq!(
        form,
        vec![
            ("mode", "subscription"),
            ("success_url", "https://ok"),
            ("cancel_url", "https://cancel"),
            ("line_items[0][price]", "price_1"),
            ("line_items[0][quantity]", "1"),
        ]
    );
}

#[test]
fn session_request_url() {
    let c = StripeClient::new("sk".to_string());
    let r = c.session_request("cs_123");
    assert_eq!(r.url, "https://api.stripe.com/v1/checkout/sessions/cs_123");
    assert_eq!(r.user, "sk");
}
