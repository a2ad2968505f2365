//! What goes to the e-mail gateway and what its answer means.
//!
//! The gateway takes one message per request: a `POST` to `/email` below its
//! base address, with the message as the body and the caller's token in the
//! header `TOKEN_HEADER`. This module composes the request and reads the
//! status of the answer; the caller, who alone holds the token, sends the one
//! and receives the other.

use vstd::prelude::*;
use vstd::string::StringExecFns;

verus! {

/// The header in which the gateway expects the caller's token.
pub const TOKEN_HEADER: &'static str = "X-Postmark-Server-Token";

/// One message for one recipient.
#[derive(Debug)]
pub struct Email {
    pub to: String,
    pub subject: String,
    pub html: String,
    pub text: String,
}

/// What an `Email` holds.
pub ghost struct EmailView {
    pub to: Seq<char>,
    pub subject: Seq<char>,
    pub html: Seq<char>,
    pub text: Seq<char>,
}

impl View for Email {
    type V = EmailView;

    open spec fn view(&self) -> EmailView {
        EmailView { to: self.to@, subject: self.subject@, html: self.html@, text: self.text@ }
    }
}

impl Clone for Email {
    fn clone(&self) -> (copy: Email)
        ensures
            copy@ == self@,
    {
        Email {
            to: self.to.clone(),
            subject: self.subject.clone(),
            html: self.html.clone(),
            text: self.text.clone(),
        }
    }
}

/// The body of a request to the gateway.
#[derive(Debug)]
pub struct SendEmailRequest {
    pub from: String,
    pub to: String,
    pub subject: String,
    pub html: String,
    pub text: String,
}

/// A request to the gateway: where it goes and what it carries.
#[derive(Debug)]
pub struct EmailRequest {
    pub url: String,
    pub body: SendEmailRequest,
}

/// Why a message counts as not delivered.
#[derive(Clone, Copy, Debug, PartialEq, Eq, Structural)]
pub enum TransportError {
    /// No answer came: the gateway was not reached, or the time ran out.
    NoResponse,
    /// The gateway answered with a status from 400 to 599.
    Status(u16),
}

/// The status of an answer reports an error: it is one from 400 to 599.
pub open spec fn is_error_status(status: u16) -> bool {
    400 <= status < 600
}

/// What the answer to a request means: the message is delivered where an
/// answer came whose status reports no error.
pub open spec fn delivery(response: Option<u16>) -> Result<(), TransportError> {
    match response {
        None => Err(TransportError::NoResponse),
        Some(status) => if is_error_status(status) {
            Err(TransportError::Status(status))
        } else {
            Ok(())
        },
    }
}

/// The client of the e-mail gateway: where the gateway is, who the sender
/// is, and how long an answer may take.
#[derive(Debug)]
pub struct EmailClient {
    base_url: String,
    sender: String,
    timeout_milliseconds: u64,
}

/// What an `EmailClient` holds.
pub ghost struct EmailClientView {
    pub base_url: Seq<char>,
    pub sender: Seq<char>,
    pub timeout_milliseconds: u64,
}

impl View for EmailClient {
    type V = EmailClientView;

    closed spec fn view(&self) -> EmailClientView {
        EmailClientView {
            base_url: self.base_url@,
            sender: self.sender@,
            timeout_milliseconds: self.timeout_milliseconds,
        }
    }
}

impl EmailClient {
    /// A client for the gateway at `base_url`, which sends as `sender` and
    /// waits `timeout_milliseconds` for an answer.
    pub fn new(base_url: String, sender: String, timeout_milliseconds: u64) -> (client:
        EmailClient)
        ensures
            client@ == (EmailClientView {
                base_url: base_url@,
                sender: sender@,
                timeout_milliseconds,
            }),
    {
        EmailClient { base_url, sender, timeout_milliseconds }
    }

    /// The request that sends one message: to `/email` below the base
    /// address, from the client's sender.
    pub fn send_email(&self, to: &str, subject: &str, html: &str, text: &str) -> (request:
        EmailRequest)
        ensures
            request.url@ == self@.base_url + "/email"@,
            request.body.from@ == self@.sender,
            request.body.to@ == to@,
            request.body.subject@ == subject@,
            request.body.html@ == html@,
            request.body.text@ == text@,
    {
        EmailRequest {
            url: self.base_url.clone().concat("/email"),
            body: SendEmailRequest {
                from: self.sender.clone(),
                to: to.to_owned(),
                subject: subject.to_owned(),
                html: html.to_owned(),
                text: text.to_owned(),
            },
        }
    }

    /// What the answer to a request means. `response` is the status of the
    /// answer, or `None` where no answer came.
    pub fn delivered(response: Option<u16>) -> (r: Result<(), TransportError>)
        ensures
            r == delivery(response),
    {
        match response {
            None => Err(TransportError::NoResponse),
            Some(status) => if status >= 400 && status < 600 {
                Err(TransportError::Status(status))
            } else {
                Ok(())
            },
        }
    }

    /// How long an answer may take, in milliseconds.
    pub fn timeout_milliseconds(&self) -> (timeout: u64)
        ensures
            timeout == self@.timeout_milliseconds,
    {
        self.timeout_milliseconds
    }
}

} // verus!
