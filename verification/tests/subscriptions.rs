use newsletter_service::domain::{NewSubscriber, SubscriberEmail, ValidationError};
use newsletter_service::email_client::{EmailClient, EmailRequest, SecretToken, TransportOutcome};
use newsletter_service::routes::subscriptions::{
    confirmation_request, pending_subscription, subscribe, FormData, HttpOutcome, SubscribeAction,
    SubscribeEvent, SubscribeState, SubscriptionRow, SubscriptionStatus, CONFIRMATION_LINK,
    CONFIRMATION_SUBJECT,
};
use newsletter_service::routes::subscriptions_confirm::confirm;
use newsletter_service::system::Timestamp;
use std::time::Duration;

fn email_client() -> EmailClient {
    EmailClient::new(
        "http://127.0.0.1:8025".to_string(),
        SubscriberEmail::parse("newsletter@my-api.com".to_string()).unwrap(),
        SecretToken::new("token-of-the-provider".to_string()),
        Duration::from_millis(1000),
    )
}

fn form(name: &str, email: &str) -> FormData {
    FormData { email: email.to_string(), name: name.to_string() }
}

fn submit(client: &EmailClient, form: Option<FormData>) -> (SubscribeState, SubscribeAction) {
    subscribe(client, SubscribeState::AwaitingSubmission, SubscribeEvent::Submitted { form })
}

fn expect_persist(action: SubscribeAction) -> SubscriptionRow {
    match action {
        SubscribeAction::Persist { row } => row,
        SubscribeAction::Send { .. } => panic!("an email instead of a row"),
        SubscribeAction::Respond { outcome } => panic!("answered with {:?}", outcome),
    }
}

fn expect_send(action: SubscribeAction) -> EmailRequest {
    match action {
        SubscribeAction::Send { request } => request,
        SubscribeAction::Persist { .. } => panic!("a row instead of an email"),
        SubscribeAction::Respond { outcome } => panic!("answered with {:?}", outcome),
    }
}

fn expect_respond(action: SubscribeAction) -> HttpOutcome {
    match action {
        SubscribeAction::Respond { outcome } => outcome,
        SubscribeAction::Persist { .. } => panic!("a row instead of an answer"),
        SubscribeAction::Send { .. } => panic!("an email instead of an answer"),
    }
}

fn expect_finished(state: SubscribeState) -> HttpOutcome {
    match state {
        SubscribeState::Finished { outcome } => outcome,
        other => panic!("not finished: {:?}", other),
    }
}

/// Runs one request to its answer. Returns the answer, the rows handed out
/// for insertion and the emails handed out for sending.
fn run(
    client: &EmailClient,
    form: Option<FormData>,
    insertion_succeeds: bool,
    provider: TransportOutcome,
) -> (HttpOutcome, Vec<SubscriptionRow>, Vec<EmailRequest>) {
    let mut rows = Vec::new();
    let mut emails = Vec::new();
    let (mut state, mut action) = submit(client, form);
    for _ in 0..10 {
        let event = match action {
            SubscribeAction::Respond { outcome } => {
                assert_eq!(expect_finished(state), outcome);
                return (outcome, rows, emails);
            }
            SubscribeAction::Persist { row } => {
                rows.push(row);
                if insertion_succeeds {
                    SubscribeEvent::Persisted
                } else {
                    SubscribeEvent::PersistenceFailed
                }
            }
            SubscribeAction::Send { request } => {
                emails.push(request);
                SubscribeEvent::Sent { outcome: provider }
            }
        };
        (state, action) = subscribe(client, state, event);
    }
    panic!("the request was never answered");
}

#[test]
fn subscribe_returns_200_for_a_valid_form_data() {
    let client = email_client();
    let (outcome, rows, emails) = run(
        &client,
        Some(form("le guin", "ursula_le_guin@gmail.com")),
        true,
        TransportOutcome::Responded { status: 200 },
    );

    assert_eq!(outcome, HttpOutcome::Success);
    assert_eq!(outcome.status_code(), 200);
    assert_eq!(rows.len(), 1);
    assert_eq!(rows[0].email, "ursula_le_guin@gmail.com");
    assert_eq!(rows[0].name, "le guin");
    assert_eq!(rows[0].status, SubscriptionStatus::PendingConfirmation);
    assert_eq!(rows[0].status.as_str(), "pending_confirmation");
    assert_eq!(emails.len(), 1);
}

#[test]
fn subscribe_returns_a_400_when_fields_are_present_but_invalid() {
    let client = email_client();
    let test_cases = vec![
        ("", "ursula_le_guin@gmail.com", "empty name"),
        ("   ", "ursula_le_guin@gmail.com", "blank name"),
        ("le {guin}", "ursula_le_guin@gmail.com", "forbidden characters in the name"),
        ("le guin", "", "empty email"),
        ("le guin", "definitely-not-an-email", "invalid email"),
        ("le guin", "@gmail.com", "email without local part"),
        ("", "", "both empty"),
    ];
    for (name, email, description) in test_cases {
        let (outcome, rows, emails) = run(
            &client,
            Some(form(name, email)),
            true,
            TransportOutcome::Responded { status: 200 },
        );
        assert_eq!(
            400,
            outcome.status_code(),
            "The API did not return a 400 Bad Request when the payload was {}.",
            description
        );
        assert!(rows.is_empty(), "a row was persisted when the payload was {}", description);
        assert!(emails.is_empty(), "an email was sent when the payload was {}", description);
    }
}

#[test]
fn subscribe_returns_a_400_when_data_is_missing() {
    let client = email_client();
    let (outcome, rows, emails) =
        run(&client, None, true, TransportOutcome::Responded { status: 200 });
    assert_eq!(400, outcome.status_code());
    assert_eq!(outcome, HttpOutcome::BadRequest);
    assert!(rows.is_empty());
    assert!(emails.is_empty());
}

#[test]
fn subscribe_sends_a_confirmation_email_for_valid_data() {
    let client = email_client();
    let (outcome, rows, emails) = run(
        &client,
        Some(form("christopher wilke", "christopher.wilke86@gmail.com")),
        true,
        TransportOutcome::Responded { status: 200 },
    );

    assert_eq!(200, outcome.status_code());
    assert_eq!(rows.len(), 1);
    assert_eq!(emails.len(), 1);
    let request = &emails[0];
    assert_eq!(request.method, "POST");
    assert_eq!(request.url, "http://127.0.0.1:8025/email");
    assert_eq!(request.token_header, "X-Postmark-Server-Token");
    assert_eq!(request.token.expose_secret(), "token-of-the-provider");
    assert_eq!(request.content_type, "application/json");
    assert_eq!(request.timeout, Duration::from_millis(1000));
    assert_eq!(request.body.from, "newsletter@my-api.com");
    assert_eq!(request.body.to, "christopher.wilke86@gmail.com");
    assert_eq!(request.body.subject, "Welcome!");
    assert_eq!(
        request.body.text_body,
        "Welcome to our newsletter!\nVisit https://my-api.com/subscriptions/confirm to confirm your subscription."
    );
    assert_eq!(
        request.body.html_body,
        "Welcome to our newsletter!<br />Click <a href=\"https://my-api.com/subscriptions/confirm\">here</a> to confirm your subscription."
    );
    let keys: Vec<String> = request.body.wire_fields().into_iter().map(|(key, _)| key).collect();
    assert_eq!(keys, ["From", "To", "Subject", "HtmlBody", "TextBody"]);
}

#[test]
fn subscribe_returns_500_if_the_provider_fails_and_the_row_stays_pending() {
    let client = email_client();
    for provider in [
        TransportOutcome::Responded { status: 500 },
        TransportOutcome::Responded { status: 503 },
        TransportOutcome::Responded { status: 599 },
        TransportOutcome::Responded { status: 404 },
        TransportOutcome::Responded { status: 302 },
        TransportOutcome::TimedOut,
        TransportOutcome::ConnectionFailed,
    ] {
        let (outcome, rows, emails) =
            run(&client, Some(form("le guin", "ursula_le_guin@gmail.com")), true, provider);
        assert_eq!(outcome, HttpOutcome::InternalServerError, "{:?}", provider);
        assert_eq!(outcome.status_code(), 500);
        // Inserted once, never taken back, and one attempt to send.
        assert_eq!(rows.len(), 1);
        assert_eq!(rows[0].status, SubscriptionStatus::PendingConfirmation);
        assert_eq!(emails.len(), 1);
    }
}

#[test]
fn subscribe_returns_500_if_the_row_cannot_be_inserted_and_sends_nothing() {
    let client = email_client();
    let (outcome, rows, emails) = run(
        &client,
        Some(form("le guin", "ursula_le_guin@gmail.com")),
        false,
        TransportOutcome::Responded { status: 200 },
    );
    assert_eq!(outcome, HttpOutcome::InternalServerError);
    assert_eq!(rows.len(), 1);
    assert!(emails.is_empty());
}

#[test]
fn the_steps_of_a_successful_request() {
    let client = email_client();
    let (state, action) = submit(&client, Some(form("le guin", "ursula_le_guin@gmail.com")));
    match &state {
        SubscribeState::AwaitingPersistence { subscriber } => {
            assert_eq!(subscriber.name.as_ref(), "le guin");
            assert_eq!(subscriber.email.as_ref(), "ursula_le_guin@gmail.com");
        }
        other => panic!("unexpected state {:?}", other),
    }
    expect_persist(action);

    let (state, action) = subscribe(&client, state, SubscribeEvent::Persisted);
    assert!(matches!(state, SubscribeState::AwaitingDelivery));
    expect_send(action);

    let sent = SubscribeEvent::Sent { outcome: TransportOutcome::Responded { status: 202 } };
    let (state, action) = subscribe(&client, state, sent);
    assert_eq!(expect_finished(state), HttpOutcome::Success);
    assert_eq!(expect_respond(action), HttpOutcome::Success);
}

#[test]
fn a_finished_request_stays_finished() {
    let client = email_client();
    for outcome in [HttpOutcome::Success, HttpOutcome::BadRequest, HttpOutcome::InternalServerError]
    {
        let events = vec![
            SubscribeEvent::Submitted { form: None },
            SubscribeEvent::Submitted { form: Some(form("le guin", "ursula_le_guin@gmail.com")) },
            SubscribeEvent::Persisted,
            SubscribeEvent::PersistenceFailed,
            SubscribeEvent::Sent { outcome: TransportOutcome::Responded { status: 200 } },
        ];
        for event in events {
            let (state, action) = subscribe(&client, SubscribeState::Finished { outcome }, event);
            assert_eq!(expect_finished(state), outcome);
            assert_eq!(expect_respond(action), outcome);
        }
    }
}

#[test]
fn an_event_that_is_not_awaited_ends_the_request_with_500() {
    let client = email_client();
    let subscriber = || NewSubscriber::try_from(form("le guin", "ursula_le_guin@gmail.com")).unwrap();
    let ok = TransportOutcome::Responded { status: 200 };
    let cases: Vec<(SubscribeState, SubscribeEvent)> = vec![
        (SubscribeState::AwaitingSubmission, SubscribeEvent::Persisted),
        (SubscribeState::AwaitingSubmission, SubscribeEvent::PersistenceFailed),
        (SubscribeState::AwaitingSubmission, SubscribeEvent::Sent { outcome: ok }),
        (
            SubscribeState::AwaitingPersistence { subscriber: subscriber() },
            SubscribeEvent::Submitted { form: None },
        ),
        (
            SubscribeState::AwaitingPersistence { subscriber: subscriber() },
            SubscribeEvent::Sent { outcome: ok },
        ),
        (SubscribeState::AwaitingDelivery, SubscribeEvent::Persisted),
        (SubscribeState::AwaitingDelivery, SubscribeEvent::PersistenceFailed),
        (
            SubscribeState::AwaitingDelivery,
            SubscribeEvent::Submitted { form: Some(form("le guin", "ursula_le_guin@gmail.com")) },
        ),
    ];
    for (state, event) in cases {
        let (state, action) = subscribe(&client, state, event);
        assert_eq!(expect_finished(state), HttpOutcome::InternalServerError);
        assert_eq!(expect_respond(action), HttpOutcome::InternalServerError);
    }
}

#[test]
fn a_form_is_validated_name_first() {
    let rejected = |name: &str, email: &str| NewSubscriber::try_from(form(name, email)).unwrap_err();
    assert_eq!(rejected("", "ursula_le_guin@gmail.com"), ValidationError::BlankName);
    assert_eq!(rejected("", "nope"), ValidationError::BlankName);
    assert_eq!(rejected("a/b", "nope"), ValidationError::ForbiddenCharacter);
    assert_eq!(rejected(&"a".repeat(257), "nope"), ValidationError::NameTooLong);
    assert_eq!(rejected("le guin", "nope"), ValidationError::InvalidEmail);
    assert_eq!(rejected("le guin", ""), ValidationError::InvalidEmail);

    let accepted = NewSubscriber::try_from(form("le guin", "ursula_le_guin@gmail.com")).unwrap();
    assert_eq!(accepted.name.as_ref(), "le guin");
    assert_eq!(accepted.email.as_ref(), "ursula_le_guin@gmail.com");
}

#[test]
fn a_pending_row_is_made_of_what_it_is_given() {
    let subscriber = NewSubscriber::try_from(form("le guin", "ursula_le_guin@gmail.com")).unwrap();
    let at = Timestamp { seconds: 1_700_000_000, nanoseconds: 42 };
    let row = SubscriptionRow::pending(7, at, &subscriber);
    assert_eq!(row.id, 7);
    assert_eq!(row.subscribed_at, at);
    assert_eq!(row.email, "ursula_le_guin@gmail.com");
    assert_eq!(row.name, "le guin");
    assert_eq!(row.status, SubscriptionStatus::PendingConfirmation);
}

#[test]
fn a_new_row_has_a_random_uuid_and_the_current_time() {
    let subscriber = NewSubscriber::try_from(form("le guin", "ursula_le_guin@gmail.com")).unwrap();
    let before = chrono::Utc::now();
    let first = pending_subscription(&subscriber);
    let second = pending_subscription(&subscriber);
    let after = chrono::Utc::now();

    for row in [&first, &second] {
        let id = uuid::Uuid::from_u128(row.id);
        assert_eq!(id.get_version_num(), 4);
        assert_eq!(id.get_variant(), uuid::Variant::RFC4122);
        assert_eq!((row.id >> 76) & 0xF, 4);
        assert_eq!((row.id >> 62) & 0x3, 2);

        assert!(row.subscribed_at.nanoseconds < 1_000_000_000);
        let at = chrono::DateTime::from_timestamp(
            row.subscribed_at.seconds,
            row.subscribed_at.nanoseconds,
        )
        .unwrap();
        assert!(before <= at && at <= after);
        assert_eq!(row.status, SubscriptionStatus::PendingConfirmation);
        assert_eq!(row.name, "le guin");
        assert_eq!(row.email, "ursula_le_guin@gmail.com");
    }
    assert_ne!(first.id, second.id);
}

#[test]
fn the_confirmation_email_holds_the_link_once_in_each_body() {
    let client = email_client();
    let subscriber = NewSubscriber::try_from(form("le guin", "ursula_le_guin@gmail.com")).unwrap();
    let request = confirmation_request(&client, &subscriber);
    assert_eq!(CONFIRMATION_LINK, "https://my-api.com/subscriptions/confirm");
    assert_eq!(CONFIRMATION_SUBJECT, "Welcome!");
    assert_eq!(request.body.subject, CONFIRMATION_SUBJECT);
    assert_eq!(request.body.to, "ursula_le_guin@gmail.com");
    assert_eq!(request.body.html_body.matches(CONFIRMATION_LINK).count(), 1);
    assert_eq!(request.body.text_body.matches(CONFIRMATION_LINK).count(), 1);
}

#[test]
fn the_statuses_are_stored_under_their_names() {
    assert_eq!(SubscriptionStatus::PendingConfirmation.as_str(), "pending_confirmation");
    assert_eq!(SubscriptionStatus::Confirmed.as_str(), "confirmed");
}

#[test]
fn confirming_leads_to_confirmed_and_never_back() {
    assert_eq!(
        confirm(SubscriptionStatus::PendingConfirmation),
        (SubscriptionStatus::Confirmed, HttpOutcome::Success)
    );
    assert_eq!(
        confirm(SubscriptionStatus::Confirmed),
        (SubscriptionStatus::Confirmed, HttpOutcome::Success)
    );
    assert_eq!(SubscriptionStatus::PendingConfirmation.confirmed(), SubscriptionStatus::Confirmed);
    assert_eq!(SubscriptionStatus::Confirmed.confirmed(), SubscriptionStatus::Confirmed);
}

#[test]
fn the_answers_have_their_http_statuses() {
    assert_eq!(HttpOutcome::Success.status_code(), 200);
    assert_eq!(HttpOutcome::BadRequest.status_code(), 400);
    assert_eq!(HttpOutcome::InternalServerError.status_code(), 500);
}
