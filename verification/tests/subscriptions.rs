use zero2prod::domains::subscriber::{ErrorCode, Field, ValidationError};
use zero2prod::domains::subscribers::{insert_subscriber, SubscriberStatus, Subscriptions};
use zero2prod::email_client::Email;
use zero2prod::routes::subscriptions::{
    send_email, subscribe, subscribe_with, Error, FormData, Signup,
};
use zero2prod::routes::Failure;

const CONFIRM: &str = "http://127.0.0.1:8000/subscriptions/confirm";

fn form(name: &str, email: &str) -> FormData {
    FormData { name: name.to_string(), email: email.to_string() }
}

/// Carries a submission through, with the registry as the store and a list
/// as the transport. `deliver` says whether the transport delivers.
fn run(
    mut flow: Signup,
    store: &mut Subscriptions,
    outbox: &mut Vec<Email>,
    deliver: bool,
) -> Result<(), Error> {
    loop {
        let done = match &flow {
            Signup::InsertSubscriber { subscriber, conf_token, .. } => {
                insert_subscriber(subscriber, conf_token, 1_700_000_000, store).is_ok()
            }
            Signup::SendEmail { message } => {
                if deliver {
                    outbox.push(message.clone());
                }
                deliver
            }
            Signup::Respond { .. } => break,
        };
        flow = flow.advance(done);
    }
    match flow {
        Signup::Respond { result } => result,
        _ => unreachable!(),
    }
}

#[test]
fn subscriptions_works() {
    let mut store = Subscriptions::new();
    let mut outbox = Vec::new();
    let flow = subscribe(&form("le guin", "le_guin@email.com"), CONFIRM);

    let response = run(flow, &mut store, &mut outbox, true);
    assert!(response.is_ok());

    let saved = &store.subscribers()[0];
    assert_eq!(saved.name, "le guin");
    assert_eq!(saved.email, "le_guin@email.com");
    assert_eq!(saved.status.as_str(), "pending_confirmation");
    assert_ne!(saved.confirmation_token.len(), 0);

    assert_eq!(outbox.len(), 1);
    let link = format!("{}?token={}", CONFIRM, saved.confirmation_token);
    assert_eq!(outbox[0].to, "le_guin@email.com");
    assert_eq!(outbox[0].subject, "Welcome!");
    assert_eq!(outbox[0].html.matches(link.as_str()).count(), 1);
    assert_eq!(outbox[0].text.matches(link.as_str()).count(), 1);
}

#[test]
fn subscriptions_doesnt_works_by_invalid_fields() {
    let mut store = Subscriptions::new();
    let mut outbox = Vec::new();
    let flow = subscribe(&form("", "le_guin@email.com"), CONFIRM);
    let response = run(flow, &mut store, &mut outbox, true);
    match response {
        Err(error) => {
            assert_eq!(error.status_code(), 400);
            assert_eq!(error.context(), "Validation failed.");
            match error {
                Error::ValidationErrors(errors) => {
                    assert!(errors.names(Field::Name));
                    assert!(!errors.names(Field::Email));
                }
                Error::UnexpectedError(_) => panic!("the form was not checked"),
            }
        }
        Ok(_) => panic!("an empty name was accepted"),
    }
    assert!(store.subscribers().is_empty());
    assert!(outbox.is_empty());
}

#[test]
fn an_empty_name_is_a_bad_request() {
    match subscribe(&form("", "a@b.com"), CONFIRM) {
        Signup::Respond { result: Err(error) } => {
            assert_eq!(error.status_code(), 400);
            match error {
                Error::ValidationErrors(errors) => assert_eq!(
                    errors.errors(),
                    &vec![(Field::Name, ValidationError { code: ErrorCode::Length })]
                ),
                Error::UnexpectedError(_) => panic!("the form was not checked"),
            }
        }
        _ => panic!("an empty name was accepted"),
    }
}

#[test]
fn name_and_email_can_fail_together() {
    match subscribe(&form("le {guin}", "le_guin"), CONFIRM) {
        Signup::Respond { result: Err(Error::ValidationErrors(errors)) } => {
            assert!(errors.names(Field::Name));
            assert!(errors.names(Field::Email));
        }
        _ => panic!("an invalid form was accepted"),
    }
}

#[test]
fn a_refusal_stays_a_refusal() {
    let flow = subscribe(&form("", "a@b.com"), CONFIRM);
    let flow = flow.advance(true).advance(true).advance(false);
    match flow {
        Signup::Respond { result: Err(Error::ValidationErrors(_)) } => {}
        _ => panic!("a refused submission went on"),
    }
    let flow = subscribe_with(&form("tom", "tom@gmail.com"), CONFIRM, "t".to_string());
    let flow = flow.advance(true).advance(true);
    let flow = flow.advance(false).advance(true);
    match flow {
        Signup::Respond { result: Ok(()) } => {}
        _ => panic!("an answer changed"),
    }
}

#[test]
fn a_failed_insertion_sends_nothing() {
    let mut store = Subscriptions::new();
    let mut outbox = Vec::new();
    let first = subscribe_with(&form("tom", "tom@gmail.com"), CONFIRM, "conf_token".to_string());
    assert!(run(first, &mut store, &mut outbox, true).is_ok());
    assert_eq!(outbox.len(), 1);

    // the same token again: the store refuses the insertion
    let second = subscribe_with(&form("petr", "petr@gmail.com"), CONFIRM, "conf_token".to_string());
    match run(second, &mut store, &mut outbox, true) {
        Err(error) => {
            assert_eq!(error.status_code(), 500);
            assert_eq!(error.context(), "Failed to insert subscriber.");
            match error {
                Error::UnexpectedError(failure) => assert_eq!(failure, Failure::Storage),
                Error::ValidationErrors(_) => panic!("a valid form was refused"),
            }
        }
        Ok(_) => panic!("a failed insertion was reported as success"),
    }
    assert_eq!(store.subscribers().len(), 1);
    assert_eq!(outbox.len(), 1);
}

#[test]
fn a_failed_delivery_leaves_the_subscriber_pending() {
    let mut store = Subscriptions::new();
    let mut outbox = Vec::new();
    let flow = subscribe(&form("tom", "tom@gmail.com"), CONFIRM);
    match run(flow, &mut store, &mut outbox, false) {
        Err(error) => {
            assert_eq!(error.status_code(), 500);
            assert_eq!(error.context(), "Failed to send confirmation email.");
            match error {
                Error::UnexpectedError(failure) => assert_eq!(failure, Failure::Transport),
                Error::ValidationErrors(_) => panic!("a valid form was refused"),
            }
        }
        Ok(_) => panic!("a failed delivery was reported as success"),
    }
    assert_eq!(store.subscribers().len(), 1);
    assert_eq!(store.subscribers()[0].status, SubscriberStatus::PendingConfirmation);
    assert!(outbox.is_empty());
}

#[test]
fn tokens_are_drawn_afresh() {
    let mut tokens = Vec::new();
    for _ in 0..8 {
        match subscribe(&form("tom", "tom@gmail.com"), CONFIRM) {
            Signup::InsertSubscriber { subscriber, conf_token, confirmation_url } => {
                assert_eq!(subscriber.name(), "tom");
                assert_eq!(subscriber.email(), "tom@gmail.com");
                assert_eq!(confirmation_url, CONFIRM);
                assert_eq!(conf_token.chars().count(), 36);
                for (i, c) in conf_token.chars().enumerate() {
                    if i == 8 || i == 13 || i == 18 || i == 23 {
                        assert_eq!(c, '-');
                    } else {
                        assert!(matches!(c, '0'..='9' | 'a'..='f'), "{}", conf_token);
                    }
                }
                assert!(!tokens.contains(&conf_token));
                tokens.push(conf_token);
            }
            _ => panic!("a valid form was refused"),
        }
    }
}

#[test]
fn the_confirmation_message_holds_the_link() {
    let message = send_email("le_guin@email.com", CONFIRM, "abc-123");
    assert_eq!(message.to, "le_guin@email.com");
    assert_eq!(message.subject, "Welcome!");
    assert_eq!(
        message.html,
        "Welcome to our newsletter!<br/> Click <a href='http://127.0.0.1:8000/subscriptions/confirm?token=abc-123'>here</a> to confirm your subscription."
    );
    assert_eq!(
        message.text,
        "Welcome to our newsletter! Visit http://127.0.0.1:8000/subscriptions/confirm?token=abc-123 to confirm your subscription."
    );
}
