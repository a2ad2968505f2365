//! A newsletter issue: an operator presents credentials and an issue, and the
//! issue goes to every confirmed subscriber.
//!
//! The credentials come first, before the issue itself is looked at. Only an
//! operator whose password the hash verifier accepts gets as far as the list
//! of subscribers. The issue then goes out recipient by recipient, in the
//! order of the list; the first delivery that fails ends the issue, nothing
//! is sent again and nothing is taken back.

use crate::auth::{
    admission, basic_auth_validator, check_password, password_accepted, presented_password,
    AuthenticationError, Credentials, CredentialsView, PasswordCheck, PasswordCheckView,
    VerifierFailure,
};
use crate::domains::subscribers::{
    confirmed_emails, confirmed_emails_of, confirmed_subscribers,
    lemma_one_recipient_for_each_confirmed, views, Subscriber, SubscriberView,
};
use crate::domains::users::{User, UserView};
use crate::email_client::{Email, EmailView, TransportError};
use crate::routes::Failure;
use vstd::prelude::*;

verus! {

/// A newsletter issue.
#[derive(Debug)]
pub struct Params {
    pub title: String,
    pub content: Content,
}

/// The two forms of the text of an issue.
#[derive(Debug)]
pub struct Content {
    pub html: String,
    pub text: String,
}

/// What a `Content` holds.
pub ghost struct ContentView {
    pub html: Seq<char>,
    pub text: Seq<char>,
}

/// What `Params` hold.
pub ghost struct ParamsView {
    pub title: Seq<char>,
    pub content: ContentView,
}

impl View for Content {
    type V = ContentView;

    open spec fn view(&self) -> ContentView {
        ContentView { html: self.html@, text: self.text@ }
    }
}

impl View for Params {
    type V = ParamsView;

    open spec fn view(&self) -> ParamsView {
        ParamsView { title: self.title@, content: self.content@ }
    }
}

/// Why an issue was not sent, or not to everyone.
#[derive(Clone, Copy, Debug, PartialEq, Eq, Structural)]
pub enum Error {
    /// The operator is unknown or the password is wrong.
    AuthenticationError,
    /// What the operator sent is no issue.
    InvalidParams,
    /// The store or the transport failed.
    UnexpectedError(Failure),
}

/// The status with which an error is answered: 401 for credentials that
/// were not accepted, 400 for a request that holds no issue, 500 for a
/// failure of the store or the transport.
pub open spec fn error_status(error: Error) -> u16 {
    match error {
        Error::AuthenticationError => 401,
        Error::InvalidParams => 400,
        Error::UnexpectedError(_) => 500,
    }
}

impl Error {
    /// The status with which the error is answered.
    pub fn status_code(&self) -> (status: u16)
        ensures
            status == error_status(*self),
    {
        match self {
            Error::AuthenticationError => 401,
            Error::InvalidParams => 400,
            Error::UnexpectedError(_) => 500,
        }
    }

    /// What failed, in words.
    pub fn context(&self) -> (text: &'static str)
        ensures
            text@ == match *self {
                Error::AuthenticationError => "Unauthorized Access"@,
                Error::InvalidParams => "Invalid params"@,
                Error::UnexpectedError(Failure::Storage) => "Failed to get confirmed emails."@,
                Error::UnexpectedError(Failure::Transport) => "Failed to send newsletter."@,
            },
    {
        match self {
            Error::AuthenticationError => "Unauthorized Access",
            Error::InvalidParams => "Invalid params",
            Error::UnexpectedError(Failure::Storage) => "Failed to get confirmed emails.",
            Error::UnexpectedError(Failure::Transport) => "Failed to send newsletter.",
        }
    }
}

/// What came of the operation that the state of an issue named.
#[derive(Debug)]
pub enum Event {
    /// The registry of operators answered: the operator of the presented
    /// name, if one is registered.
    UserFound(Option<User>),
    /// The hash verifier answered, or failed.
    PasswordVerified(Result<bool, VerifierFailure>),
    /// The store listed its subscribers, or `None` where it failed.
    SubscribersListed(Option<Vec<Subscriber>>),
    /// The transport delivered the message, or did not.
    EmailSent(Result<(), TransportError>),
}

/// What an `Event` holds.
pub ghost enum EventView {
    UserFound(Option<UserView>),
    PasswordVerified(Result<bool, VerifierFailure>),
    SubscribersListed(Option<Seq<SubscriberView>>),
    EmailSent(Result<(), TransportError>),
}

impl View for Event {
    type V = EventView;

    open spec fn view(&self) -> EventView {
        match *self {
            Event::UserFound(user) => EventView::UserFound(
                match user {
                    Some(user) => Some(user@),
                    None => None,
                },
            ),
            Event::PasswordVerified(verification) => EventView::PasswordVerified(verification),
            Event::SubscribersListed(rows) => EventView::SubscribersListed(
                match rows {
                    Some(rows) => Some(views(rows@)),
                    None => None,
                },
            ),
            Event::EmailSent(delivery) => EventView::EmailSent(delivery),
        }
    }
}

/// An issue under way. The state names what the caller has to do next and
/// answer with the matching event. Until the credentials are accepted the
/// issue is carried along as it came: `None` stands for a request that
/// could not be read as an issue.
#[derive(Debug)]
pub enum Newsletter {
    /// Look up the operator with the name of `credentials`.
    FindUser { credentials: Credentials, params: Option<Params> },
    /// Ask the hash verifier the question `check`.
    VerifyPassword { check: PasswordCheck, params: Option<Params> },
    /// List the subscribers. The credentials are accepted, and `issue` is
    /// what goes out.
    ListSubscribers { issue: Params },
    /// Send `message`. The recipients from the position `next` on are still
    /// waiting.
    SendEmail { message: Email, recipients: Vec<String>, next: usize },
    /// Answer the operator with `result`. Nothing is left to do.
    Respond { result: Result<(), Error> },
}

/// What a `Newsletter` holds. `waiting` are the recipients after the one of
/// `message`, in the order in which they are served.
pub ghost enum NewsletterView {
    FindUser { credentials: CredentialsView, params: Option<ParamsView> },
    VerifyPassword { check: PasswordCheckView, params: Option<ParamsView> },
    ListSubscribers { issue: ParamsView },
    SendEmail { message: EmailView, waiting: Seq<Seq<char>> },
    Respond { result: Result<(), Error> },
}

/// What a request holds that was read as an issue, if it was.
pub open spec fn params_view(params: Option<Params>) -> Option<ParamsView> {
    match params {
        Some(params) => Some(params@),
        None => None,
    }
}

/// The recipients from the position `next` on.
pub open spec fn waiting_from(recipients: Seq<Seq<char>>, next: usize) -> Seq<Seq<char>> {
    if next <= recipients.len() {
        recipients.skip(next as int)
    } else {
        Seq::empty()
    }
}

impl View for Newsletter {
    type V = NewsletterView;

    open spec fn view(&self) -> NewsletterView {
        match *self {
            Newsletter::FindUser { credentials, params } => NewsletterView::FindUser {
                credentials: credentials@,
                params: params_view(params),
            },
            Newsletter::VerifyPassword { check, params } => NewsletterView::VerifyPassword {
                check: check@,
                params: params_view(params),
            },
            Newsletter::ListSubscribers { issue } => NewsletterView::ListSubscribers {
                issue: issue@,
            },
            Newsletter::SendEmail { message, recipients, next } => NewsletterView::SendEmail {
                message: message@,
                waiting: waiting_from(recipients.deep_view(), next),
            },
            Newsletter::Respond { result } => NewsletterView::Respond { result },
        }
    }
}

/// The issue `subject`, `html`, `text` as a message to `to`.
pub open spec fn issue_for(
    to: Seq<char>,
    subject: Seq<char>,
    html: Seq<char>,
    text: Seq<char>,
) -> EmailView {
    EmailView { to, subject, html, text }
}

/// What is to be done with an issue while `waiting` are still to be served:
/// send it to the first of them, or answer with success where nobody is
/// left.
pub open spec fn serve(
    subject: Seq<char>,
    html: Seq<char>,
    text: Seq<char>,
    waiting: Seq<Seq<char>>,
) -> NewsletterView {
    if waiting.len() == 0 {
        NewsletterView::Respond { result: Ok(()) }
    } else {
        NewsletterView::SendEmail {
            message: issue_for(waiting[0], subject, html, text),
            waiting: waiting.skip(1),
        }
    }
}

/// The answer that refuses the credentials.
pub open spec fn refused() -> NewsletterView {
    NewsletterView::Respond { result: Err(Error::AuthenticationError) }
}

/// What follows once the credentials are accepted: the list of subscribers
/// is asked for, unless the request holds no issue.
pub open spec fn admitted(params: Option<ParamsView>) -> NewsletterView {
    match params {
        Some(issue) => NewsletterView::ListSubscribers { issue },
        None => NewsletterView::Respond { result: Err(Error::InvalidParams) },
    }
}

/// The answer after the service `failure` failed.
pub open spec fn failed(failure: Failure) -> NewsletterView {
    NewsletterView::Respond { result: Err(Error::UnexpectedError(failure)) }
}

/// Where an issue goes from `state` on `event`.
///
/// An unknown operator and a password that the verifier does not accept are
/// refused alike, whatever the request holds. A request that holds no issue
/// is refused once the credentials are accepted. The list of subscribers
/// gives the recipients: the e-mail addresses of the confirmed ones. Each
/// delivery hands the issue to the next recipient, and a delivery that fails
/// ends it. An event that does not answer what the state named counts as the
/// failure of that operation, and an answer stays what it is.
pub open spec fn step(state: NewsletterView, event: EventView) -> NewsletterView {
    match state {
        NewsletterView::FindUser { credentials, params } => match event {
            EventView::UserFound(user) => match admission(
                user,
                presented_password(credentials.password),
            ) {
                Ok(check) => NewsletterView::VerifyPassword { check, params },
                Err(_) => refused(),
            },
            _ => refused(),
        },
        NewsletterView::VerifyPassword { check, params } => match event {
            EventView::PasswordVerified(verification) => if password_accepted(verification) {
                admitted(params)
            } else {
                refused()
            },
            _ => refused(),
        },
        NewsletterView::ListSubscribers { issue } => match event {
            EventView::SubscribersListed(Some(rows)) => serve(
                issue.title,
                issue.content.html,
                issue.content.text,
                confirmed_emails(rows),
            ),
            _ => failed(Failure::Storage),
        },
        NewsletterView::SendEmail { message, waiting } => match event {
            EventView::EmailSent(Ok(_)) => serve(
                message.subject,
                message.html,
                message.text,
                waiting,
            ),
            _ => failed(Failure::Transport),
        },
        NewsletterView::Respond { result } => state,
    }
}

/// Starts an issue: the first thing to do is to look up the operator.
/// `params` is the issue, or `None` where the request could not be read as
/// one.
pub fn post_newsletter(credentials: Credentials, params: Option<Params>) -> (flow: Newsletter)
    ensures
        flow@ == (NewsletterView::FindUser {
            credentials: credentials@,
            params: params_view(params),
        }),
{
    Newsletter::FindUser { credentials, params }
}

/// Hands the issue to the recipient at the position `next`, or answers with
/// success where nobody is left.
fn hand_on(
    subject: String,
    html: String,
    text: String,
    recipients: Vec<String>,
    next: usize,
) -> (flow: Newsletter)
    ensures
        flow@ == serve(subject@, html@, text@, waiting_from(recipients.deep_view(), next)),
{
    if next < recipients.len() {
        let to = recipients[next].clone();
        proof {
            let all = recipients.deep_view();
            assert(waiting_from(all, next)[0] == to@);
            assert(waiting_from(all, next).skip(1) == waiting_from(all, (next + 1) as usize));
        }
        Newsletter::SendEmail {
            message: Email { to, subject, html, text },
            recipients,
            next: next + 1,
        }
    } else {
        Newsletter::Respond { result: Ok(()) }
    }
}

impl Newsletter {
    /// Moves the issue on with what came of the operation that the state
    /// named.
    pub fn advance(self, event: Event) -> (next: Newsletter)
        ensures
            next@ == step(self@, event@),
    {
        match self {
            Newsletter::FindUser { credentials, params } => match event {
                Event::UserFound(user) => match basic_auth_validator(user, &credentials) {
                    Ok(check) => Newsletter::VerifyPassword { check, params },
                    Err(_) => Newsletter::Respond { result: Err(Error::AuthenticationError) },
                },
                _ => Newsletter::Respond { result: Err(Error::AuthenticationError) },
            },
            Newsletter::VerifyPassword { check, params } => match event {
                Event::PasswordVerified(verification) => if check_password(verification) {
                    match params {
                        Some(issue) => Newsletter::ListSubscribers { issue },
                        None => Newsletter::Respond { result: Err(Error::InvalidParams) },
                    }
                } else {
                    Newsletter::Respond { result: Err(Error::AuthenticationError) }
                },
                _ => Newsletter::Respond { result: Err(Error::AuthenticationError) },
            },
            Newsletter::ListSubscribers { issue } => match event {
                Event::SubscribersListed(Some(rows)) => {
                    let recipients = confirmed_emails_of(&rows);
                    assert(waiting_from(recipients.deep_view(), 0) == recipients.deep_view());
                    hand_on(issue.title, issue.content.html, issue.content.text, recipients, 0)
                },
                _ => Newsletter::Respond { result: Err(Error::UnexpectedError(Failure::Storage)) },
            },
            Newsletter::SendEmail { message, recipients, next } => match event {
                Event::EmailSent(Ok(_)) => hand_on(
                    message.subject,
                    message.html,
                    message.text,
                    recipients,
                    next,
                ),
                _ => Newsletter::Respond {
                    result: Err(Error::UnexpectedError(Failure::Transport)),
                },
            },
            Newsletter::Respond { result } => Newsletter::Respond { result },
        }
    }
}

/// Where an issue is after the events `events`, one after the other, from
/// `state`.
pub open spec fn run(state: NewsletterView, events: Seq<EventView>) -> NewsletterView
    decreases events.len(),
{
    if events.len() == 0 {
        state
    } else {
        step(run(state, events.drop_last()), events.last())
    }
}

/// The messages that an issue asks the caller to send in the course of the
/// events `events` from `state`, in this order: one for each event that
/// leads to a state `SendEmail`.
pub open spec fn sends(state: NewsletterView, events: Seq<EventView>) -> Seq<EmailView>
    decreases events.len(),
{
    if events.len() == 0 {
        Seq::empty()
    } else {
        let before = sends(state, events.drop_last());
        match run(state, events) {
            NewsletterView::SendEmail { message, .. } => before.push(message),
            _ => before,
        }
    }
}

/// `count` deliveries that succeed.
pub open spec fn deliveries(count: nat) -> Seq<EventView> {
    Seq::new(count, |i: int| EventView::EmailSent(Ok(())))
}

/// The issue of `params` as a message to each of `recipients`.
pub open spec fn issues_for(params: ParamsView, recipients: Seq<Seq<char>>) -> Seq<EmailView> {
    recipients.map_values(
        |to: Seq<char>| issue_for(to, params.title, params.content.html, params.content.text),
    )
}

/// One more event moves the issue by one step, and adds the message of the
/// state that it leads to, if that state asks for one.
pub proof fn lemma_one_more_event(state: NewsletterView, events: Seq<EventView>, event: EventView)
    ensures
        run(state, events.push(event)) == step(run(state, events), event),
        sends(state, events.push(event)) == match step(run(state, events), event) {
            NewsletterView::SendEmail { message, .. } => sends(state, events).push(message),
            _ => sends(state, events),
        },
{
    assert(events.push(event).drop_last() == events);
}

/// A course of events can be cut in two: the second part goes on where the
/// first one ended.
pub proof fn lemma_events_in_two_parts(
    state: NewsletterView,
    first: Seq<EventView>,
    second: Seq<EventView>,
)
    ensures
        run(state, first + second) == run(run(state, first), second),
        sends(state, first + second) == sends(state, first) + sends(run(state, first), second),
    decreases second.len(),
{
    if second.len() == 0 {
        assert(first + second == first);
        assert(sends(state, first) + Seq::<EmailView>::empty() == sends(state, first));
    } else {
        let shorter = second.drop_last();
        lemma_events_in_two_parts(state, first, shorter);
        assert(first + second == (first + shorter).push(second.last()));
        lemma_one_more_event(state, first + shorter, second.last());
        assert(second == shorter.push(second.last()));
        lemma_one_more_event(run(state, first), shorter, second.last());
        let middle = sends(state, first) + sends(run(state, first), shorter);
        match run(state, first + second) {
            NewsletterView::SendEmail { message, .. } => {
                assert(middle.push(message) == sends(state, first) + sends(
                    run(state, first),
                    shorter,
                ).push(message));
            },
            _ => {},
        }
    }
}

/// An answer is final: whatever comes after it, the answer stays and no
/// message is asked for.
pub proof fn lemma_answer_is_final(result: Result<(), Error>, events: Seq<EventView>)
    ensures
        run(NewsletterView::Respond { result }, events) == (NewsletterView::Respond { result }),
        sends(NewsletterView::Respond { result }, events) == Seq::<EmailView>::empty(),
    decreases events.len(),
{
    if events.len() > 0 {
        lemma_answer_is_final(result, events.drop_last());
    }
}

/// While recipients are waiting, each delivery that succeeds hands the issue
/// to the next one: after `count` of them the issue is with the recipient at
/// the position `count`, and the messages asked for on the way are those to
/// the recipients from the position 1 to the position `count`.
pub proof fn lemma_deliveries_serve_in_order(
    params: ParamsView,
    waiting: Seq<Seq<char>>,
    count: nat,
)
    requires
        count < waiting.len(),
    ensures
        ({
            let first = serve(params.title, params.content.html, params.content.text, waiting);
            &&& run(first, deliveries(count)) == serve(
                params.title,
                params.content.html,
                params.content.text,
                waiting.skip(count as int),
            )
            &&& sends(first, deliveries(count)) == issues_for(
                params,
                waiting.subrange(1, count + 1 as int),
            )
        }),
    decreases count,
{
    let first = serve(params.title, params.content.html, params.content.text, waiting);
    if count == 0 {
        assert(waiting.skip(0) == waiting);
        assert(deliveries(0).len() == 0);
        assert(issues_for(params, waiting.subrange(1, 1)) == Seq::<EmailView>::empty());
    } else {
        let fewer = (count - 1) as nat;
        lemma_deliveries_serve_in_order(params, waiting, fewer);
        assert(deliveries(count) == deliveries(fewer).push(EventView::EmailSent(Ok(()))));
        lemma_one_more_event(first, deliveries(fewer), EventView::EmailSent(Ok(())));
        assert(waiting.skip(fewer as int).skip(1) == waiting.skip(count as int));
        assert(waiting.skip(count as int)[0] == waiting[count as int]);
        assert(issues_for(params, waiting.subrange(1, count + 1 as int)) == issues_for(
            params,
            waiting.subrange(1, fewer + 1 as int),
        ).push(
            issue_for(
                waiting[count as int],
                params.title,
                params.content.html,
                params.content.text,
            ),
        ));
    }
}

/// Once the recipients are known and every delivery succeeds, the issue goes
/// to each of them exactly once, in their order, and ends with success.
pub proof fn lemma_every_recipient_is_served(params: ParamsView, rows: Seq<SubscriberView>)
    ensures
        ({
            let listing = NewsletterView::ListSubscribers { issue: params };
            let events = seq![EventView::SubscribersListed(Some(rows))] + deliveries(
                confirmed_emails(rows).len(),
            );
            &&& run(listing, events) == (NewsletterView::Respond { result: Ok(()) })
            &&& sends(listing, events) == issues_for(params, confirmed_emails(rows))
        }),
{
    let listing = NewsletterView::ListSubscribers { issue: params };
    let listed = EventView::SubscribersListed(Some(rows));
    let recipients = confirmed_emails(rows);
    let count = recipients.len();
    let first = serve(params.title, params.content.html, params.content.text, recipients);
    assert(seq![listed] == Seq::<EventView>::empty().push(listed));
    lemma_one_more_event(listing, Seq::empty(), listed);
    assert(run(listing, seq![listed]) == first);
    lemma_events_in_two_parts(listing, seq![listed], deliveries(count));
    if count == 0 {
        lemma_answer_is_final(Ok(()), deliveries(count));
        assert(issues_for(params, recipients) == Seq::<EmailView>::empty());
        assert(sends(listing, seq![listed]) + Seq::<EmailView>::empty() == sends(
            listing,
            seq![listed],
        ));
    } else {
        let fewer = (count - 1) as nat;
        lemma_deliveries_serve_in_order(params, recipients, fewer);
        assert(deliveries(count) == deliveries(fewer).push(EventView::EmailSent(Ok(()))));
        lemma_one_more_event(first, deliveries(fewer), EventView::EmailSent(Ok(())));
        assert(recipients.skip(fewer as int).skip(1).len() == 0);
        let to_first = issue_for(
            recipients[0],
            params.title,
            params.content.html,
            params.content.text,
        );
        assert(sends(listing, seq![listed]) == seq![to_first]);
        assert(recipients.subrange(1, fewer + 1 as int) == recipients.skip(1));
        assert(seq![to_first] + issues_for(params, recipients.skip(1)) == issues_for(
            params,
            recipients,
        ));
    }
}

/// With credentials that are accepted and a store and a transport that do
/// their work, an issue goes to every confirmed subscriber exactly once, in
/// the order of the list, to no pending one, and ends with success. `user`
/// is the operator that the registry holds under the presented name.
pub proof fn lemma_issue_reaches_every_confirmed_subscriber(
    credentials: CredentialsView,
    params: ParamsView,
    user: UserView,
    rows: Seq<SubscriberView>,
)
    ensures
        ({
            let start = NewsletterView::FindUser { credentials, params: Some(params) };
            let accepted = seq![
                EventView::UserFound(Some(user)),
                EventView::PasswordVerified(Ok(true)),
            ];
            let served = seq![EventView::SubscribersListed(Some(rows))] + deliveries(
                confirmed_emails(rows).len(),
            );
            let sent = sends(start, accepted + served);
            &&& run(start, accepted + served) == (NewsletterView::Respond { result: Ok(()) })
            &&& sent == issues_for(params, confirmed_emails(rows))
            &&& sent.len() == confirmed_subscribers(rows).len()
            &&& forall|i: int|
                0 <= i < sent.len() ==> (#[trigger] sent[i]).to == confirmed_subscribers(
                    rows,
                )[i].email
        }),
{
    lemma_one_recipient_for_each_confirmed(rows);
    let start = NewsletterView::FindUser { credentials, params: Some(params) };
    let found = EventView::UserFound(Some(user));
    let verified = EventView::PasswordVerified(Ok(true));
    let accepted = seq![found, verified];
    let served = seq![EventView::SubscribersListed(Some(rows))] + deliveries(
        confirmed_emails(rows).len(),
    );
    assert(accepted == Seq::<EventView>::empty().push(found).push(verified));
    lemma_one_more_event(start, Seq::empty(), found);
    lemma_one_more_event(start, Seq::<EventView>::empty().push(found), verified);
    assert(run(start, accepted) == (NewsletterView::ListSubscribers { issue: params }));
    assert(sends(start, accepted) == Seq::<EmailView>::empty());
    lemma_events_in_two_parts(start, accepted, served);
    lemma_every_recipient_is_served(params, rows);
    assert(Seq::<EmailView>::empty() + issues_for(params, confirmed_emails(rows)) == issues_for(
        params,
        confirmed_emails(rows),
    ));
}

/// An operator that the registry does not know is refused, and no message
/// is ever asked for, whatever the caller reports afterwards.
pub proof fn lemma_unknown_operator_sends_nothing(
    credentials: CredentialsView,
    params: Option<ParamsView>,
    later: Seq<EventView>,
)
    ensures
        ({
            let start = NewsletterView::FindUser { credentials, params };
            let events = seq![EventView::UserFound(None)] + later;
            &&& run(start, events) == refused()
            &&& sends(start, events) == Seq::<EmailView>::empty()
        }),
{
    let start = NewsletterView::FindUser { credentials, params };
    let unknown = EventView::UserFound(None);
    assert(seq![unknown] == Seq::<EventView>::empty().push(unknown));
    lemma_one_more_event(start, Seq::empty(), unknown);
    lemma_events_in_two_parts(start, seq![unknown], later);
    lemma_answer_is_final(Err(Error::AuthenticationError), later);
    assert(Seq::<EmailView>::empty() + Seq::<EmailView>::empty() == Seq::<EmailView>::empty());
}

/// A password that the verifier does not accept, or on which it fails, is
/// refused as an unknown operator is, and no message is ever asked for,
/// whatever the caller reports afterwards.
pub proof fn lemma_wrong_password_sends_nothing(
    credentials: CredentialsView,
    params: Option<ParamsView>,
    user: UserView,
    verification: Result<bool, VerifierFailure>,
    later: Seq<EventView>,
)
    requires
        !password_accepted(verification),
    ensures
        ({
            let start = NewsletterView::FindUser { credentials, params };
            let events = seq![
                EventView::UserFound(Some(user)),
                EventView::PasswordVerified(verification),
            ] + later;
            &&& run(start, events) == refused()
            &&& sends(start, events) == Seq::<EmailView>::empty()
        }),
{
    let start = NewsletterView::FindUser { credentials, params };
    let found = EventView::UserFound(Some(user));
    let verified = EventView::PasswordVerified(verification);
    let presented = seq![found, verified];
    assert(presented == Seq::<EventView>::empty().push(found).push(verified));
    lemma_one_more_event(start, Seq::empty(), found);
    lemma_one_more_event(start, Seq::<EventView>::empty().push(found), verified);
    lemma_events_in_two_parts(start, presented, later);
    lemma_answer_is_final(Err(Error::AuthenticationError), later);
    assert(Seq::<EmailView>::empty() + Seq::<EmailView>::empty() == Seq::<EmailView>::empty());
}

/// The first delivery that fails ends the issue: the recipients before it
/// have their message, the one at which it failed was tried, and nobody
/// after it is served, whatever the caller reports afterwards.
pub proof fn lemma_failed_delivery_ends_the_issue(
    params: ParamsView,
    rows: Seq<SubscriberView>,
    delivered: nat,
    failure: TransportError,
    later: Seq<EventView>,
)
    requires
        delivered < confirmed_emails(rows).len(),
    ensures
        ({
            let listing = NewsletterView::ListSubscribers { issue: params };
            let events = seq![EventView::SubscribersListed(Some(rows))] + deliveries(delivered)
                + seq![EventView::EmailSent(Err(failure))] + later;
            &&& run(listing, events) == failed(Failure::Transport)
            &&& sends(listing, events) == issues_for(
                params,
                confirmed_emails(rows).take(delivered + 1 as int),
            )
        }),
{
    let listing = NewsletterView::ListSubscribers { issue: params };
    let listed = EventView::SubscribersListed(Some(rows));
    let broken = EventView::EmailSent(Err(failure));
    let recipients = confirmed_emails(rows);
    let first = serve(params.title, params.content.html, params.content.text, recipients);
    let to_first = issue_for(
        recipients[0],
        params.title,
        params.content.html,
        params.content.text,
    );
    assert(seq![listed] == Seq::<EventView>::empty().push(listed));
    lemma_one_more_event(listing, Seq::empty(), listed);
    assert(sends(listing, seq![listed]) == seq![to_first]);
    lemma_deliveries_serve_in_order(params, recipients, delivered);
    lemma_events_in_two_parts(listing, seq![listed], deliveries(delivered));
    let served = seq![listed] + deliveries(delivered);
    assert(seq![broken] == Seq::<EventView>::empty().push(broken));
    assert(served + seq![broken] == served.push(broken));
    lemma_one_more_event(listing, served, broken);
    lemma_events_in_two_parts(listing, served + seq![broken], later);
    lemma_answer_is_final(Err(Error::UnexpectedError(Failure::Transport)), later);
    assert(seq![to_first] + issues_for(params, recipients.subrange(1, delivered + 1 as int))
        == issues_for(params, recipients.take(delivered + 1 as int)));
    assert(sends(listing, served.push(broken)) + Seq::<EmailView>::empty() == sends(
        listing,
        served.push(broken),
    ));
}

/// A request that holds no issue is refused as such only to an operator
/// whose credentials are accepted, and no message is ever asked for.
pub proof fn lemma_request_without_issue_sends_nothing(
    credentials: CredentialsView,
    user: UserView,
    later: Seq<EventView>,
)
    ensures
        ({
            let start = NewsletterView::FindUser { credentials, params: None };
            let events = seq![
                EventView::UserFound(Some(user)),
                EventView::PasswordVerified(Ok(true)),
            ] + later;
            &&& run(start, events) == (NewsletterView::Respond {
                result: Err(Error::InvalidParams),
            })
            &&& sends(start, events) == Seq::<EmailView>::empty()
        }),
{
    let start = NewsletterView::FindUser { credentials, params: None };
    let found = EventView::UserFound(Some(user));
    let verified = EventView::PasswordVerified(Ok(true));
    let presented = seq![found, verified];
    assert(presented == Seq::<EventView>::empty().push(found).push(verified));
    lemma_one_more_event(start, Seq::empty(), found);
    lemma_one_more_event(start, Seq::<EventView>::empty().push(found), verified);
    lemma_events_in_two_parts(start, presented, later);
    lemma_answer_is_final(Err(Error::InvalidParams), later);
    assert(Seq::<EmailView>::empty() + Seq::<EmailView>::empty() == Seq::<EmailView>::empty());
}

} // verus!
