//! The decisions that the clients take on a reply: which body to read next,
//! and what the call returns. The caller performs the HTTP work and reports
//! each outcome as an event; `Exchange::step` says what follows.

use vstd::prelude::*;
use crate::auth::AuthErrorResponse;
use crate::error::ApiError;
use crate::text::join;
use crate::stripe::StripeError;

verus! {

/// The calls that the clients make.
#[derive(Debug, Clone, Copy, PartialEq, Eq)]
pub enum Endpoint {
    SignIn,
    SignUp,
    PasswordReset,
    RefreshToken,
    GetDocument,
    ListDocuments,
    CreateCheckoutSession,
    RetrieveSession,
}

/// The status of an HTTP reply: its code and its text (such as `404 Not Found`).
#[derive(Debug, PartialEq, Eq)]
pub struct HttpStatus {
    pub code: u16,
    pub text: String,
}

/// The error body of a reply, as the service words it.
#[derive(Debug, PartialEq, Eq)]
pub enum ServiceError {
    Auth(AuthErrorResponse),
    Stripe(StripeError),
}

/// What the caller observed: the request's status or its transport failure,
/// or the decoding of a body (its value, or why it could not be decoded).
#[derive(Debug, PartialEq, Eq)]
pub enum ReplyEvent<T> {
    Sent(Result<HttpStatus, String>),
    SuccessBody(Result<T, String>),
    ErrorBody(Result<ServiceError, String>),
}

/// Where an exchange stands.
#[derive(Debug, Clone, Copy, PartialEq, Eq)]
pub enum ReplyStage {
    AwaitingStatus,
    AwaitingSuccessBody,
    AwaitingErrorBody,
    Finished,
}

/// What the caller does next: decode the success body, decode the error
/// body, or end the call (successfully without a body, with a value, or with
/// an error).
#[derive(Debug, PartialEq, Eq)]
pub enum ReplyAction<T> {
    ReadSuccessBody,
    ReadErrorBody,
    Accept,
    Deliver(T),
    Fail(ApiError),
}

/// Whether a status code reports success (the 2xx range).
pub open spec fn success_code(code: u16) -> bool {
    200 <= code <= 299
}

/// Whether the call is one of Stripe's.
pub open spec fn is_stripe(ep: Endpoint) -> bool {
    ep == Endpoint::CreateCheckoutSession || ep == Endpoint::RetrieveSession
}

/// Whether the call is one of Firestore's.
pub open spec fn is_firestore(ep: Endpoint) -> bool {
    ep == Endpoint::GetDocument || ep == Endpoint::ListDocuments
}

/// The start of the message of a transport failure.
pub open spec fn network_prefix(ep: Endpoint) -> Seq<char> {
    if is_stripe(ep) { "Stripe network error: "@ } else { "Network error: "@ }
}

/// The start of the message of an undecodable success body.
pub open spec fn parse_prefix(ep: Endpoint) -> Seq<char> {
    if is_stripe(ep) { "Stripe parse error: "@ } else { "Parse error: "@ }
}

/// The start of the message of an undecodable error body.
pub open spec fn error_parse_prefix(ep: Endpoint) -> Seq<char> {
    if is_stripe(ep) { "Stripe error parse error: "@ } else { "Error parse error: "@ }
}

/// The message that a service error body carries.
pub open spec fn service_message(e: ServiceError) -> Seq<char> {
    match e {
        ServiceError::Auth(a) => a.error.message@,
        ServiceError::Stripe(s) => s.error.message@,
    }
}

/// Whether `event` is what the stage `stage` waits for.
pub open spec fn event_fits<T>(stage: ReplyStage, event: ReplyEvent<T>) -> bool {
    match event {
        ReplyEvent::Sent(_) => stage == ReplyStage::AwaitingStatus,
        ReplyEvent::SuccessBody(_) => stage == ReplyStage::AwaitingSuccessBody,
        ReplyEvent::ErrorBody(_) => stage == ReplyStage::AwaitingErrorBody,
    }
}

/// The stage after `event`: a transport failure ends the call; a success
/// status leads to its body, or ends a password reset; a failure status
/// leads to the error body, or ends a Firestore read; a body ends the call.
pub open spec fn stage_after<T>(ep: Endpoint, event: ReplyEvent<T>) -> ReplyStage {
    match event {
        ReplyEvent::Sent(Ok(status)) => if success_code(status.code) {
            if ep == Endpoint::PasswordReset { ReplyStage::Finished } else { ReplyStage::AwaitingSuccessBody }
        } else {
            if is_firestore(ep) { ReplyStage::Finished } else { ReplyStage::AwaitingErrorBody }
        },
        _ => ReplyStage::Finished,
    }
}

/// The action that answers `event`; an error's message is stated in full.
pub open spec fn action_fits<T>(ep: Endpoint, event: ReplyEvent<T>, action: ReplyAction<T>) -> bool {
    match event {
        ReplyEvent::Sent(Err(detail)) =>
            action matches ReplyAction::Fail(e) && e.message@ == network_prefix(ep) + detail@,
        ReplyEvent::Sent(Ok(status)) => if success_code(status.code) {
            if ep == Endpoint::PasswordReset { action is Accept } else { action is ReadSuccessBody }
        } else {
            if is_firestore(ep) {
                action matches ReplyAction::Fail(e) && e.message@ == "Firestore error: "@ + status.text@
            } else {
                action is ReadErrorBody
            }
        },
        ReplyEvent::SuccessBody(Ok(v)) => action == ReplyAction::Deliver(v),
        ReplyEvent::SuccessBody(Err(detail)) =>
            action matches ReplyAction::Fail(e) && e.message@ == parse_prefix(ep) + detail@,
        ReplyEvent::ErrorBody(Ok(report)) =>
            action matches ReplyAction::Fail(e) && e.message@ == service_message(report),
        ReplyEvent::ErrorBody(Err(detail)) =>
            action matches ReplyAction::Fail(e) && e.message@ == error_parse_prefix(ep) + detail@,
    }
}

/// Every call ends within two events: the status leaves it finished or
/// waiting for a body, and the body's event finishes it.
pub proof fn lemma_call_ends_within_two_events<T>(ep: Endpoint, first: ReplyEvent<T>, second: ReplyEvent<T>)
    requires
        event_fits(ReplyStage::AwaitingStatus, first),
    ensures
        stage_after(ep, first) != ReplyStage::AwaitingStatus,
        event_fits(stage_after(ep, first), second) ==> stage_after(ep, second) == ReplyStage::Finished,
{
}

/// A step finishes the call exactly when its action ends the call; a
/// Firestore read never asks for an error body and a password reset never
/// asks for a success body.
pub proof fn lemma_finishing_actions<T>(ep: Endpoint, event: ReplyEvent<T>, action: ReplyAction<T>)
    requires
        action_fits(ep, event, action),
    ensures
        (stage_after(ep, event) == ReplyStage::Finished) == !(action is ReadSuccessBody || action is ReadErrorBody),
        is_firestore(ep) ==> !(action is ReadErrorBody),
        ep == Endpoint::PasswordReset ==> !(action is ReadSuccessBody),
{
}

/// A status in the 2xx range: every call but a password reset goes on to
/// read the success body (never the error body); a password reset ends,
/// accepted, without a body.
pub proof fn lemma_success_status_reads_success_body<T>(ep: Endpoint, status: HttpStatus, action: ReplyAction<T>)
    requires
        200 <= status.code <= 299,
        action_fits(ep, ReplyEvent::Sent(Ok(status)), action),
    ensures
        ep != Endpoint::PasswordReset ==> action is ReadSuccessBody,
        ep != Endpoint::PasswordReset ==> stage_after(ep, ReplyEvent::<T>::Sent(Ok(status)))
            == ReplyStage::AwaitingSuccessBody,
        ep == Endpoint::PasswordReset ==> action is Accept,
        ep == Endpoint::PasswordReset ==> stage_after(ep, ReplyEvent::<T>::Sent(Ok(status)))
            == ReplyStage::Finished,
        !(action is ReadErrorBody),
        !(action is Fail),
{
}

/// A status outside the 2xx range: a Firestore read fails at once with
/// "Firestore error: " and the status text; every other call goes on to read
/// the error body. Neither reads the success body nor accepts.
pub proof fn lemma_failure_status<T>(ep: Endpoint, status: HttpStatus, action: ReplyAction<T>)
    requires
        !(200 <= status.code <= 299),
        action_fits(ep, ReplyEvent::Sent(Ok(status)), action),
    ensures
        (ep == Endpoint::GetDocument || ep == Endpoint::ListDocuments) ==> (action matches ReplyAction::Fail(e)
            && e.message@ == "Firestore error: "@ + status.text@),
        (ep == Endpoint::GetDocument || ep == Endpoint::ListDocuments) ==> stage_after(
            ep,
            ReplyEvent::<T>::Sent(Ok(status)),
        ) == ReplyStage::Finished,
        !(ep == Endpoint::GetDocument || ep == Endpoint::ListDocuments) ==> action is ReadErrorBody,
        !(ep == Endpoint::GetDocument || ep == Endpoint::ListDocuments) ==> stage_after(
            ep,
            ReplyEvent::<T>::Sent(Ok(status)),
        ) == ReplyStage::AwaitingErrorBody,
        !(action is ReadSuccessBody),
        !(action is Accept),
{
}

/// Two steps of a call that succeeds with a body: after a 2xx status, every
/// call but a password reset waits for the success body, and a decoded body
/// `v` is then delivered as it is, ending the call.
pub proof fn lemma_success_delivers_body<T>(ep: Endpoint, status: HttpStatus, v: T, action: ReplyAction<T>)
    requires
        200 <= status.code <= 299,
        ep != Endpoint::PasswordReset,
        action_fits(ep, ReplyEvent::SuccessBody(Ok(v)), action),
    ensures
        event_fits(stage_after(ep, ReplyEvent::<T>::Sent(Ok(status))), ReplyEvent::<T>::SuccessBody(Ok(v))),
        action == ReplyAction::<T>::Deliver(v),
        stage_after(ep, ReplyEvent::<T>::SuccessBody(Ok(v))) == ReplyStage::Finished,
{
}

/// The failures after the status: a transport failure, an undecodable
/// success body and an undecodable error body each end the call with the
/// detail behind the prefix of the service (Stripe's calls say "Stripe"), and
/// a decoded error body ends it with the service's own message.
pub proof fn lemma_failure_messages<T>(ep: Endpoint, detail: String, report: ServiceError, a1: ReplyAction<T>, a2: ReplyAction<T>, a3: ReplyAction<T>, a4: ReplyAction<T>)
    requires
        action_fits(ep, ReplyEvent::<T>::Sent(Err(detail)), a1),
        action_fits(ep, ReplyEvent::<T>::SuccessBody(Err(detail)), a2),
        action_fits(ep, ReplyEvent::<T>::ErrorBody(Err(detail)), a3),
        action_fits(ep, ReplyEvent::<T>::ErrorBody(Ok(report)), a4),
    ensures
        a1 matches ReplyAction::Fail(e) && e.message@ == (if ep == Endpoint::CreateCheckoutSession || ep
            == Endpoint::RetrieveSession { "Stripe network error: "@ } else { "Network error: "@ }) + detail@,
        a2 matches ReplyAction::Fail(e) && e.message@ == (if ep == Endpoint::CreateCheckoutSession || ep
            == Endpoint::RetrieveSession { "Stripe parse error: "@ } else { "Parse error: "@ }) + detail@,
        a3 matches ReplyAction::Fail(e) && e.message@ == (if ep == Endpoint::CreateCheckoutSession || ep
            == Endpoint::RetrieveSession { "Stripe error parse error: "@ } else { "Error parse error: "@ })
            + detail@,
        a4 matches ReplyAction::Fail(e) && e.message@ == (match report {
            ServiceError::Auth(x) => x.error.message@,
            ServiceError::Stripe(x) => x.error.message@,
        }),
        stage_after(ep, ReplyEvent::<T>::Sent(Err(detail))) == ReplyStage::Finished,
        stage_after(ep, ReplyEvent::<T>::SuccessBody(Err(detail))) == ReplyStage::Finished,
        stage_after(ep, ReplyEvent::<T>::ErrorBody(Err(detail))) == ReplyStage::Finished,
        stage_after(ep, ReplyEvent::<T>::ErrorBody(Ok(report))) == ReplyStage::Finished,
{
}

/// Whether a status code reports success (the 2xx range).
pub fn is_success(code: u16) -> (r: bool)
    ensures
        r == success_code(code),
{
    200 <= code && code <= 299
}

/// One call in progress: the endpoint it reaches and where it stands.
#[derive(Debug, PartialEq, Eq)]
pub struct Exchange {
    pub endpoint: Endpoint,
    pub stage: ReplyStage,
}

impl Exchange {
    /// A call to `endpoint` whose request has not been answered yet.
    pub fn new(endpoint: Endpoint) -> (r: Exchange)
        ensures
            r.endpoint == endpoint,
            r.stage == ReplyStage::AwaitingStatus,
    {
        Exchange { endpoint, stage: ReplyStage::AwaitingStatus }
    }

    /// Takes in what the caller observed and says what to do next.
    pub fn step<T>(&mut self, event: ReplyEvent<T>) -> (action: ReplyAction<T>)
        requires
            event_fits(old(self).stage, event),
        ensures
            final(self).endpoint == old(self).endpoint,
            final(self).stage == stage_after(old(self).endpoint, event),
            action_fits(old(self).endpoint, event, action),
    {
        let ep = self.endpoint;
        let stripe = match ep {
            Endpoint::CreateCheckoutSession | Endpoint::RetrieveSession => true,
            _ => false,
        };
        let firestore = match ep {
            Endpoint::GetDocument | Endpoint::ListDocuments => true,
            _ => false,
        };
        match event {
            ReplyEvent::Sent(Err(detail)) => {
                self.stage = ReplyStage::Finished;
                let prefix = if stripe { "Stripe network error: " } else { "Network error: " };
                ReplyAction::Fail(ApiError::new(join(prefix, detail.as_str())))
            },
            ReplyEvent::Sent(Ok(status)) => {
                if is_success(status.code) {
                    if let Endpoint::PasswordReset = ep {
                        self.stage = ReplyStage::Finished;
                        ReplyAction::Accept
                    } else {
                        self.stage = ReplyStage::AwaitingSuccessBody;
                        ReplyAction::ReadSuccessBody
                    }
                } else if firestore {
                    self.stage = ReplyStage::Finished;
                    ReplyAction::Fail(ApiError::new(join("Firestore error: ", status.text.as_str())))
                } else {
                    self.stage = ReplyStage::AwaitingErrorBody;
                    ReplyAction::ReadErrorBody
                }
            },
            ReplyEvent::SuccessBody(Ok(v)) => {
                self.stage = ReplyStage::Finished;
                ReplyAction::Deliver(v)
            },
            ReplyEvent::SuccessBody(Err(detail)) => {
                self.stage = ReplyStage::Finished;
                let prefix = if stripe { "Stripe parse error: " } else { "Parse error: " };
                ReplyAction::Fail(ApiError::new(join(prefix, detail.as_str())))
            },
            ReplyEvent::ErrorBody(Ok(report)) => {
                self.stage = ReplyStage::Finished;
                let message = match report {
                    ServiceError::Auth(a) => a.error.message,
                    ServiceError::Stripe(s) => s.error.message,
                };
                ReplyAction::Fail(ApiError::new(message))
            },
            ReplyEvent::ErrorBody(Err(detail)) => {
                self.stage = ReplyStage::Finished;
                let prefix = if stripe { "Stripe error parse error: " } else { "Error parse error: " };
                ReplyAction::Fail(ApiError::new(join(prefix, detail.as_str())))
            },
        }
    }
}

} // verus!
