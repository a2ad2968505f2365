//! A submission: a visitor's name and e-mail address become a pending
//! subscriber, to whom the link that confirms the subscription is sent.
//!
//! A failed insertion sends nothing. A failed delivery leaves the subscriber
//! in the store: the submission is reported as failed and is not taken back.

use crate::domains::subscriber::{
    email_syntax_ok, lemma_violations_name_the_fields, name_is_valid, names_field, violations,
    Field, NewSubscriber, NewSubscriberView, ValidationError, ValidationErrors,
};
use crate::domains::subscribers::{insert_pending, SubscriberStatus, SubscriberView};
use crate::email_client::{Email, EmailView};
use crate::routes::Failure;
use vstd::prelude::*;
use vstd::string::StringExecFns;

verus! {

/// What a visitor submits.
#[derive(Debug)]
pub struct FormData {
    pub name: String,
    pub email: String,
}

/// Why a submission failed.
#[derive(Debug)]
pub enum Error {
    /// The submission violates the rules that the value names.
    ValidationErrors(ValidationErrors),
    /// The store or the transport failed.
    UnexpectedError(Failure),
}

/// What an `Error` holds.
pub ghost enum ErrorView {
    ValidationErrors(Seq<(Field, ValidationError)>),
    UnexpectedError(Failure),
}

impl View for Error {
    type V = ErrorView;

    open spec fn view(&self) -> ErrorView {
        match *self {
            Error::ValidationErrors(errors) => ErrorView::ValidationErrors(errors@),
            Error::UnexpectedError(failure) => ErrorView::UnexpectedError(failure),
        }
    }
}

/// The status with which an error is answered: 400 for a submission that
/// violates the rules, 500 for a failure of the store or the transport.
pub open spec fn error_status(error: ErrorView) -> u16 {
    match error {
        ErrorView::ValidationErrors(_) => 400,
        ErrorView::UnexpectedError(_) => 500,
    }
}

impl Error {
    /// The status with which the error is answered.
    pub fn status_code(&self) -> (status: u16)
        ensures
            status == error_status(self@),
    {
        match self {
            Error::ValidationErrors(_) => 400,
            Error::UnexpectedError(_) => 500,
        }
    }

    /// What failed, in words.
    pub fn context(&self) -> (text: &'static str)
        ensures
            text@ == match self@ {
                ErrorView::ValidationErrors(_) => "Validation failed."@,
                ErrorView::UnexpectedError(Failure::Storage) => "Failed to insert subscriber."@,
                ErrorView::UnexpectedError(Failure::Transport) =>
                    "Failed to send confirmation email."@,
            },
    {
        match self {
            Error::ValidationErrors(_) => "Validation failed.",
            Error::UnexpectedError(Failure::Storage) => "Failed to insert subscriber.",
            Error::UnexpectedError(Failure::Transport) => "Failed to send confirmation email.",
        }
    }
}

/// A digit of a number to the base sixteen, in lower case.
pub open spec fn is_lower_hex(c: char) -> bool {
    ('0' <= c && c <= '9') || ('a' <= c && c <= 'f')
}

/// The shape of an issued confirmation token: 36 characters, hyphens at the
/// positions 8, 13, 18 and 23, digits to the base sixteen elsewhere.
pub open spec fn is_issued_token(token: Seq<char>) -> bool {
    &&& token.len() == 36
    &&& forall|i: int|
        0 <= i < 36 ==> if i == 8 || i == 13 || i == 18 || i == 23 {
            #[trigger] token[i] == '-'
        } else {
            is_lower_hex(token[i])
        }
}

/// Draws a confirmation token: `uuid::Uuid::new_v4`, a random identifier of
/// version 4 with 122 random bits, written by its `Display`, which is the
/// hyphenated form in lower case. The contract states this shape, which every
/// outcome has, and nothing of the value. The random bits come from the
/// operating system, and the call does not return where it has none to give.
#[verifier::external_body]
fn new_token() -> (token: String)
    ensures
        is_issued_token(token@),
{
    uuid::Uuid::new_v4().to_string()
}

/// The link that confirms a subscription: the address of the confirmation
/// with the token as its query.
pub open spec fn confirmation_link(confirmation_url: Seq<char>, token: Seq<char>) -> Seq<char> {
    confirmation_url + "?token="@ + token
}

/// The message that carries the confirmation link `link` to `to`.
pub open spec fn confirmation_email(to: Seq<char>, link: Seq<char>) -> EmailView {
    EmailView {
        to,
        subject: "Welcome!"@,
        html: "Welcome to our newsletter!<br/> Click <a href='"@ + link
            + "'>here</a> to confirm your subscription."@,
        text: "Welcome to our newsletter! Visit "@ + link + " to confirm your subscription."@,
    }
}

/// Composes the message that asks a new subscriber to confirm: it goes to
/// `email` and holds, as a link and as text, the address `confirmation_url`
/// with `token` as its query. The token is written into the link as it is.
pub fn send_email(email: &str, confirmation_url: &str, token: &str) -> (message: Email)
    ensures
        message@ == confirmation_email(email@, confirmation_link(confirmation_url@, token@)),
{
    let link = confirmation_url.to_owned().concat("?token=").concat(token);
    let html = "Welcome to our newsletter!<br/> Click <a href='".to_owned().concat(
        link.as_str(),
    ).concat("'>here</a> to confirm your subscription.");
    let text = "Welcome to our newsletter! Visit ".to_owned().concat(link.as_str()).concat(
        " to confirm your subscription.",
    );
    Email { to: email.to_owned(), subject: "Welcome!".to_owned(), html, text }
}

/// A submission under way. The state names what the caller has to do next:
/// insert the subscriber, send the message, or answer the visitor.
#[derive(Debug)]
pub enum Signup {
    /// Insert `subscriber` into the store as pending, with the confirmation
    /// token `conf_token`.
    InsertSubscriber { subscriber: NewSubscriber, conf_token: String, confirmation_url: String },
    /// Send `message`.
    SendEmail { message: Email },
    /// Answer the visitor with `result`. Nothing is left to do.
    Respond { result: Result<(), Error> },
}

/// What a `Signup` holds.
pub ghost enum SignupView {
    InsertSubscriber {
        subscriber: NewSubscriberView,
        conf_token: Seq<char>,
        confirmation_url: Seq<char>,
    },
    SendEmail { message: EmailView },
    Respond { result: Result<(), ErrorView> },
}

impl View for Signup {
    type V = SignupView;

    open spec fn view(&self) -> SignupView {
        match *self {
            Signup::InsertSubscriber { subscriber, conf_token, confirmation_url } =>
                SignupView::InsertSubscriber {
                    subscriber: subscriber@,
                    conf_token: conf_token@,
                    confirmation_url: confirmation_url@,
                },
            Signup::SendEmail { message } => SignupView::SendEmail { message: message@ },
            Signup::Respond { result } => SignupView::Respond {
                result: match result {
                    Ok(_) => Ok(()),
                    Err(error) => Err(error@),
                },
            },
        }
    }
}

/// Where a submission starts, given whether the syntax of the e-mail address
/// is accepted and the token that was drawn for it: with the insertion of the
/// subscriber where every rule is met, and with the refusal that names the
/// violated rules where one is not.
pub open spec fn begin(
    name: Seq<char>,
    email: Seq<char>,
    email_is_valid: bool,
    conf_token: Seq<char>,
    confirmation_url: Seq<char>,
) -> SignupView {
    if name_is_valid(name) && email_is_valid {
        SignupView::InsertSubscriber {
            subscriber: NewSubscriberView { name, email },
            conf_token,
            confirmation_url,
        }
    } else {
        SignupView::Respond {
            result: Err(ErrorView::ValidationErrors(violations(name, email_is_valid))),
        }
    }
}

/// Where a submission goes from `state` once the caller has done what the
/// state names, with or without success. After the insertion comes the
/// message, after the message the answer; a failure ends the submission at
/// once, and an answer stays what it is.
pub open spec fn step(state: SignupView, succeeded: bool) -> SignupView {
    match state {
        SignupView::InsertSubscriber { subscriber, conf_token, confirmation_url } => if succeeded {
            SignupView::SendEmail {
                message: confirmation_email(
                    subscriber.email,
                    confirmation_link(confirmation_url, conf_token),
                ),
            }
        } else {
            SignupView::Respond { result: Err(ErrorView::UnexpectedError(Failure::Storage)) }
        },
        SignupView::SendEmail { message } => if succeeded {
            SignupView::Respond { result: Ok(()) }
        } else {
            SignupView::Respond { result: Err(ErrorView::UnexpectedError(Failure::Transport)) }
        },
        SignupView::Respond { result } => state,
    }
}

/// The token of the insertion that `state` asks for.
pub open spec fn asked_token(state: SignupView) -> Seq<char> {
    match state {
        SignupView::InsertSubscriber { conf_token, .. } => conf_token,
        _ => Seq::empty(),
    }
}

/// Starts a submission with the confirmation token `conf_token`.
pub fn subscribe_with(form: &FormData, confirmation_url: &str, conf_token: String) -> (flow: Signup)
    ensures
        flow@ == begin(
            form.name@,
            form.email@,
            email_syntax_ok(form.email@),
            conf_token@,
            confirmation_url@,
        ),
{
    match NewSubscriber::parse(form.name.as_str(), form.email.as_str()) {
        Ok(subscriber) => Signup::InsertSubscriber {
            subscriber,
            conf_token,
            confirmation_url: confirmation_url.to_owned(),
        },
        Err(errors) => Signup::Respond { result: Err(Error::ValidationErrors(errors)) },
    }
}

/// Starts a submission: checks the form and draws the confirmation token.
/// `confirmation_url` is the address at which subscriptions are confirmed.
pub fn subscribe(form: &FormData, confirmation_url: &str) -> (flow: Signup)
    ensures
        flow@ == begin(
            form.name@,
            form.email@,
            email_syntax_ok(form.email@),
            asked_token(flow@),
            confirmation_url@,
        ),
        flow@ is InsertSubscriber ==> is_issued_token(asked_token(flow@)),
{
    subscribe_with(form, confirmation_url, new_token())
}

impl Signup {
    /// Moves the submission on. `succeeded` says whether the caller could do
    /// what the state named.
    pub fn advance(self, succeeded: bool) -> (next: Signup)
        ensures
            next@ == step(self@, succeeded),
    {
        match self {
            Signup::InsertSubscriber { subscriber, conf_token, confirmation_url } => if succeeded {
                Signup::SendEmail {
                    message: send_email(
                        subscriber.email().as_str(),
                        confirmation_url.as_str(),
                        conf_token.as_str(),
                    ),
                }
            } else {
                Signup::Respond { result: Err(Error::UnexpectedError(Failure::Storage)) }
            },
            Signup::SendEmail { message } => if succeeded {
                Signup::Respond { result: Ok(()) }
            } else {
                Signup::Respond { result: Err(Error::UnexpectedError(Failure::Transport)) }
            },
            Signup::Respond { result } => Signup::Respond { result },
        }
    }
}

/// A name that meets both rules and an e-mail address with accepted syntax
/// are taken: the submission asks for the insertion of exactly this
/// subscriber, the store holds it as pending afterwards, the confirmation
/// message goes to its address, and after the delivery the visitor is
/// answered with success.
pub proof fn lemma_valid_submission_succeeds(
    name: Seq<char>,
    email: Seq<char>,
    conf_token: Seq<char>,
    confirmation_url: Seq<char>,
    rows: Seq<SubscriberView>,
    subscribed_at: i64,
)
    requires
        name_is_valid(name),
        email_syntax_ok(email),
    ensures
        ({
            let subscriber = NewSubscriberView { name, email };
            let asked = begin(name, email, true, conf_token, confirmation_url);
            let stored = insert_pending(rows, subscriber, conf_token, subscribed_at);
            &&& asked == SignupView::InsertSubscriber { subscriber, conf_token, confirmation_url }
            &&& stored.last().status == SubscriberStatus::PendingConfirmation
            &&& stored.last().name == name
            &&& stored.last().email == email
            &&& stored.last().confirmation_token == conf_token
            &&& step(asked, true) == SignupView::SendEmail {
                message: confirmation_email(email, confirmation_link(confirmation_url, conf_token)),
            }
            &&& step(step(asked, true), true) == SignupView::Respond { result: Ok(()) }
        }),
{
}

/// A submission that violates a rule is refused before anything is asked of
/// the store or the transport, and stays refused. The refusal names the name
/// where the name is at fault, the e-mail address where its syntax is not
/// accepted, and both where both are.
pub proof fn lemma_invalid_submission_is_refused(
    name: Seq<char>,
    email: Seq<char>,
    email_is_valid: bool,
    conf_token: Seq<char>,
    confirmation_url: Seq<char>,
)
    requires
        !(name_is_valid(name) && email_is_valid),
    ensures
        ({
            let refused = begin(name, email, email_is_valid, conf_token, confirmation_url);
            let named = violations(name, email_is_valid);
            &&& refused == SignupView::Respond { result: Err(ErrorView::ValidationErrors(named)) }
            &&& error_status(ErrorView::ValidationErrors(named)) == 400
            &&& names_field(named, Field::Name) <==> !name_is_valid(name)
            &&& names_field(named, Field::Email) <==> !email_is_valid
            &&& forall|succeeded: bool| step(refused, succeeded) == refused
        }),
{
    lemma_violations_name_the_fields(name, email_is_valid);
}

} // verus!
