//! The adapter to the transactional email provider: what a send request
//! holds on the wire, and what the provider's answer means.
//!
//! The library makes no network call. [`EmailClient::email_request`] says
//! which single request delivers an email, and [`delivery_result`] judges
//! what came of it; the caller performs the request in between, once.

use crate::domain::subscriber_email::{is_valid_email, SubscriberEmail};
use std::time::Duration;
use vstd::prelude::*;

verus! {

/// The path of the provider's send endpoint, below the base URL.
pub const EMAIL_PATH: &'static str = "/email";

/// The HTTP method of a send request.
pub const EMAIL_METHOD: &'static str = "POST";

/// The header that carries the authorization token.
pub const AUTHORIZATION_HEADER: &'static str = "X-Postmark-Server-Token";

/// The content type of a send request's body.
pub const CONTENT_TYPE: &'static str = "application/json";

/// What stands in place of a secret wherever one is written out.
pub const REDACTED: &'static str = "[REDACTED]";

/// The provider's authorization token. The type has no `Debug` and no
/// `Display`, so the token cannot reach a log line by accident:
/// [`SecretToken::expose_secret`] is the one way to read it.
pub struct SecretToken {
    secret: String,
}

impl View for SecretToken {
    type V = Seq<char>;

    closed spec fn view(&self) -> Seq<char> {
        self.secret@
    }
}

impl SecretToken {
    /// Wraps `secret`.
    pub fn new(secret: String) -> (token: SecretToken)
        ensures
            token@ == secret@,
    {
        SecretToken { secret }
    }

    /// The token itself, for the authorization header and nothing else.
    pub fn expose_secret(&self) -> (secret: &str)
        ensures
            secret@ == self@,
    {
        self.secret.as_str()
    }

    /// The text that stands for the token in messages: the same for every
    /// token.
    pub fn to_string(&self) -> (shown: String)
        ensures
            shown@ == REDACTED@,
    {
        REDACTED.to_owned()
    }
}

impl Clone for SecretToken {
    fn clone(&self) -> (copy: SecretToken)
        ensures
            copy@ == self@,
    {
        SecretToken { secret: self.secret.clone() }
    }
}

/// The body of a send request. On the wire it is a JSON object whose keys are
/// `From`, `To`, `Subject`, `HtmlBody` and `TextBody`.
#[derive(Debug)]
pub struct SendEmailRequest {
    pub from: String,
    pub to: String,
    pub subject: String,
    pub html_body: String,
    pub text_body: String,
}

impl SendEmailRequest {
    /// The members of the JSON object, each key with its value.
    pub open spec fn wire_model(self) -> Seq<(Seq<char>, Seq<char>)> {
        seq![
            ("From"@, self.from@),
            ("To"@, self.to@),
            ("Subject"@, self.subject@),
            ("HtmlBody"@, self.html_body@),
            ("TextBody"@, self.text_body@),
        ]
    }

    /// The members of the JSON object, each key with its value.
    pub fn wire_fields(&self) -> (fields: Vec<(String, String)>)
        ensures
            fields@.len() == 5,
            forall|i: int|
                0 <= i < 5 ==> (#[trigger] fields@[i]).0@ == self.wire_model()[i].0 && fields@[i].1@
                    == self.wire_model()[i].1,
    {
        let mut fields: Vec<(String, String)> = Vec::new();
        fields.push(("From".to_owned(), self.from.clone()));
        fields.push(("To".to_owned(), self.to.clone()));
        fields.push(("Subject".to_owned(), self.subject.clone()));
        fields.push(("HtmlBody".to_owned(), self.html_body.clone()));
        fields.push(("TextBody".to_owned(), self.text_body.clone()));
        fields
    }
}

/// One HTTP request to the provider: `method` on `url`, with `token` in the
/// header `token_header` and `body` as a document of type `content_type`,
/// given up after `timeout`.
pub struct EmailRequest {
    pub method: &'static str,
    pub url: String,
    pub token_header: &'static str,
    pub token: SecretToken,
    pub content_type: &'static str,
    pub body: SendEmailRequest,
    pub timeout: Duration,
}

/// Sends transactional email through one provider, from one sender. Its
/// settings are fixed when it is made.
pub struct EmailClient {
    base_url: String,
    sender: SubscriberEmail,
    authorization_token: SecretToken,
    timeout: Duration,
}

/// What an [`EmailClient`] was made with.
pub struct EmailClientSettings {
    /// The provider's base URL.
    pub base_url: Seq<char>,
    /// The address emails are sent from.
    pub sender: Seq<char>,
    /// The authorization token.
    pub token: Seq<char>,
    /// How long a request may take.
    pub timeout: Duration,
}

impl View for EmailClient {
    type V = EmailClientSettings;

    closed spec fn view(&self) -> EmailClientSettings {
        EmailClientSettings {
            base_url: self.base_url@,
            sender: self.sender@,
            token: self.authorization_token@,
            timeout: self.timeout,
        }
    }
}

impl EmailClient {
    /// A client that sends from `sender` through the provider at `base_url`.
    pub fn new(
        base_url: String,
        sender: SubscriberEmail,
        authorization_token: SecretToken,
        timeout: Duration,
    ) -> (client: EmailClient)
        ensures
            client@.base_url == base_url@,
            client@.sender == sender@,
            client@.token == authorization_token@,
            client@.timeout == timeout,
    {
        EmailClient { base_url, sender, authorization_token, timeout }
    }

    /// `request` is the one request by which this client sends an email with
    /// these contents to `recipient`: a `POST` to the send endpoint below the
    /// base URL, with the token in the authorization header and a JSON body
    /// that names this client's sender.
    pub open spec fn sends(
        &self,
        request: EmailRequest,
        recipient: Seq<char>,
        subject: Seq<char>,
        html_content: Seq<char>,
        text_content: Seq<char>,
    ) -> bool {
        &&& request.method@ == EMAIL_METHOD@
        &&& request.url@ == self@.base_url + EMAIL_PATH@
        &&& request.token_header@ == AUTHORIZATION_HEADER@
        &&& request.token@ == self@.token
        &&& request.content_type@ == CONTENT_TYPE@
        &&& request.timeout == self@.timeout
        &&& request.body.from@ == self@.sender
        &&& request.body.to@ == recipient
        &&& request.body.subject@ == subject
        &&& request.body.html_body@ == html_content
        &&& request.body.text_body@ == text_content
    }

    /// The request that sends one email to `recipient`. Sender and recipient
    /// are valid addresses.
    pub fn email_request(
        &self,
        recipient: &SubscriberEmail,
        subject: &str,
        html_content: &str,
        text_content: &str,
    ) -> (request: EmailRequest)
        ensures
            self.sends(request, recipient@, subject@, html_content@, text_content@),
            is_valid_email(request.body.from@),
            is_valid_email(request.body.to@),
    {
        let url = self.base_url.clone().concat(EMAIL_PATH);
        let body = SendEmailRequest {
            from: self.sender.as_ref().to_owned(),
            to: recipient.as_ref().to_owned(),
            subject: subject.to_owned(),
            html_body: html_content.to_owned(),
            text_body: text_content.to_owned(),
        };
        EmailRequest {
            method: EMAIL_METHOD,
            url,
            token_header: AUTHORIZATION_HEADER,
            token: self.authorization_token.clone(),
            content_type: CONTENT_TYPE,
            body,
            timeout: self.timeout,
        }
    }
}

/// What came of performing an [`EmailRequest`].
#[derive(Clone, Copy, Debug, PartialEq, Eq, Structural)]
pub enum TransportOutcome {
    /// The provider answered with this HTTP status.
    Responded { status: u16 },
    /// No answer came within the timeout.
    TimedOut,
    /// The request could not be carried out.
    ConnectionFailed,
}

/// Why an email was not delivered.
#[derive(Clone, Copy, Debug, PartialEq, Eq, Structural)]
pub enum DeliveryError {
    /// The provider answered with a status outside 200 to 299.
    Rejected { status: u16 },
    /// No answer came within the timeout.
    TimedOut,
    /// The request could not be carried out.
    ConnectionFailed,
}

/// The statuses that mean the provider took the email.
pub open spec fn is_success(status: u16) -> bool {
    200 <= status <= 299
}

/// What an outcome means for the send: only an answer with a success status
/// delivers.
pub open spec fn judge(outcome: TransportOutcome) -> Result<(), DeliveryError> {
    match outcome {
        TransportOutcome::Responded { status } => if is_success(status) {
            Ok(())
        } else {
            Err(DeliveryError::Rejected { status })
        },
        TransportOutcome::TimedOut => Err(DeliveryError::TimedOut),
        TransportOutcome::ConnectionFailed => Err(DeliveryError::ConnectionFailed),
    }
}

/// Judges what came of a send. There is no partial success and no retry: a
/// failure here is the failure of the whole send.
pub fn delivery_result(outcome: TransportOutcome) -> (r: Result<(), DeliveryError>)
    ensures
        r == judge(outcome),
{
    match outcome {
        TransportOutcome::Responded { status } => {
            if 200 <= status && status <= 299 {
                Ok(())
            } else {
                Err(DeliveryError::Rejected { status })
            }
        },
        TransportOutcome::TimedOut => Err(DeliveryError::TimedOut),
        TransportOutcome::ConnectionFailed => Err(DeliveryError::ConnectionFailed),
    }
}

/// A send succeeds only on an answer with a status from 200 to 299: any 5xx
/// answer, a timeout and a failed connection are all failures.
pub proof fn law_only_success_status_delivers(outcome: TransportOutcome)
    ensures
        judge(outcome) is Ok <==> (outcome matches TransportOutcome::Responded { status }
            && 200 <= status <= 299),
        outcome matches TransportOutcome::Responded { status } && 500 <= status <= 599 ==> judge(
            outcome,
        ) is Err,
        judge(TransportOutcome::TimedOut) is Err,
{
}

} // verus!
