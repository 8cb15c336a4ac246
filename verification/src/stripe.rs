//! Stripe: checkout session creation and retrieval, the payloads of the
//! replies and the requests that the client sends.

use vstd::prelude::*;
use crate::text::join;

verus! {

/// A Stripe Checkout Session (the fields the client reads).
#[derive(Debug, PartialEq, Eq)]
pub struct CheckoutSession {
    pub id: String,
    pub url: Option<String>,
}

/// The status of a Stripe Checkout Session.
#[derive(Debug, PartialEq, Eq)]
pub struct SessionStatus {
    pub id: String,
    pub status: Option<String>,
    pub payment_status: Option<String>,
    pub customer_email: Option<String>,
}

/// Stripe API error response.
#[derive(Debug, PartialEq, Eq)]
pub struct StripeError {
    pub error: StripeErrorDetail,
}

/// The detail of a Stripe API error; `error_type` is its `type` member.
#[derive(Debug, PartialEq, Eq)]
pub struct StripeErrorDetail {
    pub error_type: String,
    pub message: String,
}

/// A form-encoded POST, authenticated with `user` as the basic-auth user
/// name and no password.
#[derive(Debug, PartialEq, Eq)]
pub struct FormPost {
    pub url: String,
    pub user: String,
    pub form: Vec<(String, String)>,
}

/// A GET authenticated with `user` as the basic-auth user name and no password.
#[derive(Debug, PartialEq, Eq)]
pub struct BasicGet {
    pub url: String,
    pub user: String,
}

/// The form pairs of a subscription checkout for `price_id`, one unit.
pub open spec fn checkout_form(price_id: Seq<char>, success_url: Seq<char>, cancel_url: Seq<char>) -> Seq<(Seq<char>, Seq<char>)> {
    seq![
        ("mode"@, "subscription"@),
        ("success_url"@, success_url),
        ("cancel_url"@, cancel_url),
        ("line_items[0][price]"@, price_id),
        ("line_items[0][quantity]"@, "1"@),
    ]
}

/// A checkout form asks for a subscription, names the two return URLs, and
/// orders exactly one unit of the price; its five field names differ from
/// one another, so each value is found by its name.
pub proof fn lemma_checkout_form(price_id: Seq<char>, success_url: Seq<char>, cancel_url: Seq<char>)
    ensures
        checkout_form(price_id, success_url, cancel_url).len() == 5,
        checkout_form(price_id, success_url, cancel_url)[0] == ("mode"@, "subscription"@),
        checkout_form(price_id, success_url, cancel_url)[1] == ("success_url"@, success_url),
        checkout_form(price_id, success_url, cancel_url)[2] == ("cancel_url"@, cancel_url),
        checkout_form(price_id, success_url, cancel_url)[3] == ("line_items[0][price]"@, price_id),
        checkout_form(price_id, success_url, cancel_url)[4] == ("line_items[0][quantity]"@, seq!['1']),
        forall|i: int, j: int|
            0 <= i < j < 5 ==> #[trigger] checkout_form(price_id, success_url, cancel_url)[i].0
                != #[trigger] checkout_form(price_id, success_url, cancel_url)[j].0,
{
    reveal_strlit("mode");
    reveal_strlit("success_url");
    reveal_strlit("cancel_url");
    reveal_strlit("line_items[0][price]");
    reveal_strlit("line_items[0][quantity]");
    reveal_strlit("1");
    let f = checkout_form(price_id, success_url, cancel_url);
    assert(f[0].0.len() == 4);
    assert(f[1].0.len() == 11);
    assert(f[2].0.len() == 10);
    assert(f[3].0.len() == 20);
    assert(f[4].0.len() == 23);
}

/// The configuration of the Stripe client: its secret key.
#[derive(Debug, PartialEq, Eq)]
pub struct StripeClient {
    pub secret_key: String,
}

/// A pair of new strings.
fn pair(k: &str, v: &str) -> (r: (String, String))
    ensures
        r.0@ == k@,
        r.1@ == v@,
{
    (String::from_str(k), String::from_str(v))
}

impl StripeClient {
    /// A client with the Stripe secret key `secret_key`.
    pub fn new(secret_key: String) -> (r: StripeClient)
        ensures
            r.secret_key@ == secret_key@,
    {
        StripeClient { secret_key }
    }

    /// The request that creates a subscription Checkout Session for one unit
    /// of `price_id`, returning to `success_url` or `cancel_url`.
    pub fn checkout_session_request(&self, price_id: &str, success_url: &str, cancel_url: &str) -> (r: FormPost)
        ensures
            r.url@ == "https://api.stripe.com/v1/checkout/sessions"@,
            r.user@ == self.secret_key@,
            r.form@.len() == 5,
            forall|i: int| 0 <= i < 5 ==> (#[trigger] r.form@[i]).0@ == checkout_form(price_id@, success_url@, cancel_url@)[i].0
                && r.form@[i].1@ == checkout_form(price_id@, success_url@, cancel_url@)[i].1,
    {
        let mut form: Vec<(String, String)> = Vec::new();
        form.push(pair("mode", "subscription"));
        form.push(pair("success_url", success_url));
        form.push(pair("cancel_url", cancel_url));
        form.push(pair("line_items[0][price]", price_id));
        form.push(pair("line_items[0][quantity]", "1"));
        FormPost {
            url: String::from_str("https://api.stripe.com/v1/checkout/sessions"),
            user: self.secret_key.clone(),
            form,
        }
    }

    /// The request that retrieves the Checkout Session `session_id`.
    pub fn session_request(&self, session_id: &str) -> (r: BasicGet)
        ensures
            r.url@ == "https://api.stripe.com/v1/checkout/sessions/"@ + session_id@,
            r.user@ == self.secret_key@,
    {
        BasicGet {
            url: join("https://api.stripe.com/v1/checkout/sessions/", session_id),
            user: self.secret_key.clone(),
        }
    }
}

} // verus!
