//! Subscribing: from a submitted form to a pending subscription and its
//! confirmation email.
//!
//! The workflow is a state machine. [`subscribe`] takes the state of one
//! request and what has just happened, and answers with the next state and
//! the one thing to do next: insert a row, send an email, or respond. The
//! caller does that thing and reports back.

use crate::domain::new_subscriber::{submission_fault, NewSubscriber};
use crate::domain::subscriber_email::{is_valid_email, SubscriberEmail};
use crate::domain::subscriber_name::{name_is_valid, SubscriberName, ValidationError};
use crate::email_client::{delivery_result, judge, EmailClient, EmailRequest, TransportOutcome};
use crate::system::{fresh_id, is_random_uuid, now, Timestamp};
use vstd::prelude::*;

verus! {

/// The fields of a submitted form, as they arrived.
#[derive(Debug)]
pub struct FormData {
    pub email: String,
    pub name: String,
}

impl NewSubscriber {
    /// Validates both fields of a form, the name first. Either failure
    /// rejects the whole submission.
    pub fn try_from(value: FormData) -> (r: Result<NewSubscriber, ValidationError>)
        ensures
            r is Ok <==> name_is_valid(value.name@) && is_valid_email(value.email@),
            r matches Ok(subscriber) ==> subscriber.name@ == value.name@ && subscriber.email@
                == value.email@,
            r matches Err(e) ==> submission_fault(value.name@, value.email@) == Some(e),
    {
        let name = match SubscriberName::parse(value.name) {
            Ok(name) => name,
            Err(e) => {
                return Err(e);
            },
        };
        let email = match SubscriberEmail::parse(value.email) {
            Ok(email) => email,
            Err(e) => {
                return Err(e);
            },
        };
        Ok(NewSubscriber { email, name })
    }
}

/// Where a subscription stands.
#[derive(Clone, Copy, Debug, PartialEq, Eq, Structural)]
pub enum SubscriptionStatus {
    /// Recorded; the confirmation link has not been followed.
    PendingConfirmation,
    /// The confirmation link has been followed.
    Confirmed,
}

impl SubscriptionStatus {
    /// The status as it is stored.
    pub open spec fn stored(self) -> Seq<char> {
        match self {
            SubscriptionStatus::PendingConfirmation => "pending_confirmation"@,
            SubscriptionStatus::Confirmed => "confirmed"@,
        }
    }

    /// The status as it is stored.
    pub fn as_str(&self) -> (s: &'static str)
        ensures
            s@ == self.stored(),
    {
        match self {
            SubscriptionStatus::PendingConfirmation => "pending_confirmation",
            SubscriptionStatus::Confirmed => "confirmed",
        }
    }

    /// The status after confirmation. There is no way back to pending.
    pub fn confirmed(self) -> (next: SubscriptionStatus)
        ensures
            next == SubscriptionStatus::Confirmed,
    {
        SubscriptionStatus::Confirmed
    }
}

/// How a request is answered. The body is always empty.
#[derive(Clone, Copy, Debug, PartialEq, Eq, Structural)]
pub enum HttpOutcome {
    Success,
    BadRequest,
    InternalServerError,
}

impl HttpOutcome {
    /// The HTTP status of the answer.
    pub open spec fn code(self) -> u16 {
        match self {
            HttpOutcome::Success => 200,
            HttpOutcome::BadRequest => 400,
            HttpOutcome::InternalServerError => 500,
        }
    }

    /// The HTTP status of the answer.
    pub fn status_code(&self) -> (code: u16)
        ensures
            code == self.code(),
    {
        match self {
            HttpOutcome::Success => 200,
            HttpOutcome::BadRequest => 400,
            HttpOutcome::InternalServerError => 500,
        }
    }
}

/// One row of the subscriptions table.
#[derive(Debug)]
pub struct SubscriptionRow {
    pub id: u128,
    pub email: String,
    pub name: String,
    pub subscribed_at: Timestamp,
    pub status: SubscriptionStatus,
}

impl SubscriptionRow {
    /// The row that records `subscriber` as pending, under `id` and as of
    /// `subscribed_at`.
    pub fn pending(id: u128, subscribed_at: Timestamp, subscriber: &NewSubscriber) -> (row:
        SubscriptionRow)
        ensures
            row.id == id,
            row.subscribed_at == subscribed_at,
            row.email@ == subscriber.email@,
            row.name@ == subscriber.name@,
            row.status == SubscriptionStatus::PendingConfirmation,
    {
        SubscriptionRow {
            id,
            email: subscriber.email.as_ref().to_owned(),
            name: subscriber.name.as_ref().to_owned(),
            subscribed_at,
            status: SubscriptionStatus::PendingConfirmation,
        }
    }
}

/// `row` records a subscriber of this name and address as pending, under a
/// random identifier and a time read from the clock.
pub open spec fn is_pending_row_for(row: SubscriptionRow, name: Seq<char>, email: Seq<char>) -> bool {
    &&& row.name@ == name
    &&& row.email@ == email
    &&& row.status == SubscriptionStatus::PendingConfirmation
    &&& is_random_uuid(row.id)
    &&& row.subscribed_at.seconds >= 0
    &&& row.subscribed_at.nanoseconds < 1_000_000_000
}

/// The row to insert for a new subscriber: pending, under a fresh random
/// identifier, as of now.
pub fn pending_subscription(new_subscriber: &NewSubscriber) -> (row: SubscriptionRow)
    ensures
        is_pending_row_for(row, new_subscriber.name@, new_subscriber.email@),
{
    let id = fresh_id();
    let subscribed_at = now();
    SubscriptionRow::pending(id, subscribed_at, new_subscriber)
}

/// The link a subscriber follows to confirm. It is the same for everyone: a
/// confirmation names no subscriber.
pub const CONFIRMATION_LINK: &'static str = "https://my-api.com/subscriptions/confirm";

/// The subject of the confirmation email.
pub const CONFIRMATION_SUBJECT: &'static str = "Welcome!";

/// The plain-text body that invites to follow `link`.
pub open spec fn text_body_with(link: Seq<char>) -> Seq<char> {
    "Welcome to our newsletter!\nVisit "@ + link + " to confirm your subscription."@
}

/// The HTML body that invites to follow `link`.
pub open spec fn html_body_with(link: Seq<char>) -> Seq<char> {
    "Welcome to our newsletter!<br />Click <a href=\""@ + link
        + "\">here</a> to confirm your subscription."@
}

/// `request` is the request by which `client` sends the confirmation email to
/// `recipient`.
pub open spec fn is_confirmation_request(
    client: EmailClient,
    request: EmailRequest,
    recipient: Seq<char>,
) -> bool {
    client.sends(
        request,
        recipient,
        CONFIRMATION_SUBJECT@,
        html_body_with(CONFIRMATION_LINK@),
        text_body_with(CONFIRMATION_LINK@),
    )
}

/// The request that sends the confirmation email to a new subscriber.
pub fn confirmation_request(email_client: &EmailClient, new_subscriber: &NewSubscriber) -> (request:
    EmailRequest)
    ensures
        is_confirmation_request(*email_client, request, new_subscriber.email@),
{
    let text_body = "Welcome to our newsletter!\nVisit ".to_owned().concat(CONFIRMATION_LINK).concat(
        " to confirm your subscription.",
    );
    let html_body = "Welcome to our newsletter!<br />Click <a href=\"".to_owned().concat(
        CONFIRMATION_LINK,
    ).concat("\">here</a> to confirm your subscription.");
    email_client.email_request(
        &new_subscriber.email,
        CONFIRMATION_SUBJECT,
        html_body.as_str(),
        text_body.as_str(),
    )
}

/// How far one subscribe request has come.
#[derive(Debug)]
pub enum SubscribeState {
    /// The form has not been looked at.
    AwaitingSubmission,
    /// The row of `subscriber` has been handed out for insertion.
    AwaitingPersistence { subscriber: NewSubscriber },
    /// The confirmation email has been handed out for sending.
    AwaitingDelivery,
    /// The request has been answered.
    Finished { outcome: HttpOutcome },
}

/// What has just happened to a subscribe request.
#[derive(Debug)]
pub enum SubscribeEvent {
    /// The request arrived. `form` is `None` where its body did not hold both
    /// fields.
    Submitted { form: Option<FormData> },
    /// The row was inserted.
    Persisted,
    /// The row could not be inserted.
    PersistenceFailed,
    /// The send request was performed, with this outcome.
    Sent { outcome: TransportOutcome },
}

/// What to do next for a subscribe request.
pub enum SubscribeAction {
    /// Insert `row`, then report `Persisted` or `PersistenceFailed`.
    Persist { row: SubscriptionRow },
    /// Perform `request` once, then report `Sent`.
    Send { request: EmailRequest },
    /// Answer the request. Nothing follows.
    Respond { outcome: HttpOutcome },
}

/// `next` ends the request with `outcome`.
pub open spec fn finishes_with(next: (SubscribeState, SubscribeAction), outcome: HttpOutcome) -> bool {
    &&& next.0 == SubscribeState::Finished { outcome }
    &&& next.1 == SubscribeAction::Respond { outcome }
}

/// The workflow's rule: in `state`, on `event`, `next` is the state and the
/// action that follow.
///
/// A form with a fault ends the request with 400 before anything is
/// persisted or sent. A valid one has its row inserted as pending; once that
/// has succeeded the confirmation email goes out, and the request ends with
/// 200 if the provider took it. A failed insertion or a failed send ends the
/// request with 500; nothing undoes an insertion. An event that the state does
/// not await ends the request with 500, and a finished request stays as
/// it is.
pub open spec fn subscribe_step(
    client: EmailClient,
    state: SubscribeState,
    event: SubscribeEvent,
    next: (SubscribeState, SubscribeAction),
) -> bool {
    match (state, event) {
        (SubscribeState::AwaitingSubmission, SubscribeEvent::Submitted { form: Some(form) }) => {
            if submission_fault(form.name@, form.email@) is None {
                &&& next.0 matches SubscribeState::AwaitingPersistence { subscriber }
                &&& subscriber.name@ == form.name@
                &&& subscriber.email@ == form.email@
                &&& next.1 matches SubscribeAction::Persist { row }
                &&& is_pending_row_for(row, form.name@, form.email@)
            } else {
                finishes_with(next, HttpOutcome::BadRequest)
            }
        },
        (SubscribeState::AwaitingSubmission, SubscribeEvent::Submitted { form: None }) => {
            finishes_with(next, HttpOutcome::BadRequest)
        },
        (SubscribeState::AwaitingPersistence { subscriber }, SubscribeEvent::Persisted) => {
            &&& next.0 == SubscribeState::AwaitingDelivery
            &&& next.1 matches SubscribeAction::Send { request }
            &&& is_confirmation_request(client, request, subscriber.email@)
        },
        (SubscribeState::AwaitingDelivery, SubscribeEvent::Sent { outcome }) => {
            if judge(outcome) is Ok {
                finishes_with(next, HttpOutcome::Success)
            } else {
                finishes_with(next, HttpOutcome::InternalServerError)
            }
        },
        (SubscribeState::Finished { outcome }, _) => finishes_with(next, outcome),
        _ => finishes_with(next, HttpOutcome::InternalServerError),
    }
}

/// Takes one subscribe request one step further: from its state and the
/// latest event to the next state and the action to perform.
pub fn subscribe(email_client: &EmailClient, state: SubscribeState, event: SubscribeEvent) -> (next:
    (SubscribeState, SubscribeAction))
    ensures
        subscribe_step(*email_client, state, event, next),
{
    match (state, event) {
        (SubscribeState::AwaitingSubmission, SubscribeEvent::Submitted { form: Some(form) }) => {
            match NewSubscriber::try_from(form) {
                Ok(subscriber) => {
                    let row = pending_subscription(&subscriber);
                    (
                        SubscribeState::AwaitingPersistence { subscriber },
                        SubscribeAction::Persist { row },
                    )
                },
                Err(_) => finish(HttpOutcome::BadRequest),
            }
        },
        (SubscribeState::AwaitingSubmission, SubscribeEvent::Submitted { form: None }) => finish(
            HttpOutcome::BadRequest,
        ),
        (SubscribeState::AwaitingPersistence { subscriber }, SubscribeEvent::Persisted) => {
            let request = confirmation_request(email_client, &subscriber);
            (SubscribeState::AwaitingDelivery, SubscribeAction::Send { request })
        },
        (SubscribeState::AwaitingDelivery, SubscribeEvent::Sent { outcome }) => {
            if delivery_result(outcome).is_ok() {
                finish(HttpOutcome::Success)
            } else {
                finish(HttpOutcome::InternalServerError)
            }
        },
        (SubscribeState::Finished { outcome }, _) => finish(outcome),
        _ => finish(HttpOutcome::InternalServerError),
    }
}

/// How many of the workflow's stages a request in `state` has behind it.
pub open spec fn progress(state: SubscribeState) -> nat {
    match state {
        SubscribeState::AwaitingSubmission => 0,
        SubscribeState::AwaitingPersistence { .. } => 1,
        SubscribeState::AwaitingDelivery => 2,
        SubscribeState::Finished { .. } => 3,
    }
}

/// A form that is missing, or that has a fault in either field, is answered
/// with 400 at once: no row is handed out for insertion and no email for
/// sending.
pub proof fn law_faulty_submission_is_a_bad_request(
    client: EmailClient,
    form: Option<FormData>,
    next: (SubscribeState, SubscribeAction),
)
    requires
        subscribe_step(
            client,
            SubscribeState::AwaitingSubmission,
            SubscribeEvent::Submitted { form },
            next,
        ),
        form matches Some(fields) ==> !(name_is_valid(fields.name@) && is_valid_email(
            fields.email@,
        )),
    ensures
        next.0 == (SubscribeState::Finished { outcome: HttpOutcome::BadRequest }),
        next.1 == (SubscribeAction::Respond { outcome: HttpOutcome::BadRequest }),
{
}

/// A form whose two fields are valid has exactly its name and address handed
/// out for insertion, as a pending subscription.
pub proof fn law_valid_submission_is_persisted_as_pending(
    client: EmailClient,
    fields: FormData,
    next: (SubscribeState, SubscribeAction),
)
    requires
        subscribe_step(
            client,
            SubscribeState::AwaitingSubmission,
            SubscribeEvent::Submitted { form: Some(fields) },
            next,
        ),
        name_is_valid(fields.name@),
        is_valid_email(fields.email@),
    ensures
        next.1 matches SubscribeAction::Persist { row } && row.name@ == fields.name@ && row.email@
            == fields.email@ && row.status == SubscriptionStatus::PendingConfirmation,
{
}

/// A send that fails, be it by a status outside 200 to 299, a timeout or a
/// failed connection, is answered with 500. The answer is all that follows:
/// the row inserted before stays as it is, pending.
pub proof fn law_failed_delivery_is_a_server_error(
    client: EmailClient,
    outcome: TransportOutcome,
    next: (SubscribeState, SubscribeAction),
)
    requires
        subscribe_step(
            client,
            SubscribeState::AwaitingDelivery,
            SubscribeEvent::Sent { outcome },
            next,
        ),
        !(outcome matches TransportOutcome::Responded { status } && 200 <= status <= 299),
    ensures
        next.0 == (SubscribeState::Finished { outcome: HttpOutcome::InternalServerError }),
        next.1 == (SubscribeAction::Respond { outcome: HttpOutcome::InternalServerError }),
{
}

/// A failed insertion is answered with 500, and no email is handed out.
pub proof fn law_failed_persistence_is_a_server_error(
    client: EmailClient,
    subscriber: NewSubscriber,
    next: (SubscribeState, SubscribeAction),
)
    requires
        subscribe_step(
            client,
            SubscribeState::AwaitingPersistence { subscriber },
            SubscribeEvent::PersistenceFailed,
            next,
        ),
    ensures
        next.0 == (SubscribeState::Finished { outcome: HttpOutcome::InternalServerError }),
        next.1 == (SubscribeAction::Respond { outcome: HttpOutcome::InternalServerError }),
{
}

/// Every step takes an unfinished request further, and a finished one stays
/// as it is. A row is handed out only for a request whose form has just
/// arrived, an email only for one whose row has just been inserted: so one
/// request leads to at most one insertion and at most one send, and is
/// answered after at most three steps.
pub proof fn law_each_step_advances(
    client: EmailClient,
    state: SubscribeState,
    event: SubscribeEvent,
    next: (SubscribeState, SubscribeAction),
)
    requires
        subscribe_step(client, state, event, next),
    ensures
        state is Finished ==> next.0 == state,
        !(state is Finished) ==> progress(next.0) > progress(state),
        next.1 is Persist ==> state is AwaitingSubmission && next.0 is AwaitingPersistence,
        next.1 is Send ==> state is AwaitingPersistence && next.0 is AwaitingDelivery,
        next.1 is Respond <==> next.0 is Finished,
{
}

fn finish(outcome: HttpOutcome) -> (next: (SubscribeState, SubscribeAction))
    ensures
        finishes_with(next, outcome),
{
    (SubscribeState::Finished { outcome }, SubscribeAction::Respond { outcome })
}

} // verus!
