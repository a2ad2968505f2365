use zero2prod::domains::subscriber::NewSubscriber;
use zero2prod::domains::subscribers::{
    self, confirm_subscriber, confirmed_emails_of, insert_subscriber, Subscriber,
    SubscriberStatus, Subscriptions,
};
use zero2prod::domains::StoreError;

#[test]
fn saving_subscriber() {
    let mut store = Subscriptions::new();
    let new_subscriber = NewSubscriber::parse("tom", "tom@gmail.com").unwrap();
    let _ = insert_subscriber(&new_subscriber, "conf_token", 1_700_000_000, &mut store);

    let rows = store.subscribers();
    assert_eq!(rows.len(), 1);
    let res = &rows[0];
    assert_eq!(res.name, "tom");
    assert_eq!(res.email, "tom@gmail.com");
    assert_eq!(res.status.as_str(), "pending_confirmation");
    assert_eq!(res.confirmation_token, "conf_token");
    assert_eq!(res.subscribed_at, 1_700_000_000);
}

#[test]
fn get_confirmed_subscriber_emails() {
    let mut store = Subscriptions::new();
    let conf_subscriber = NewSubscriber::parse("tom", "tom@gmail.com").unwrap();
    let not_conf_subscriber = NewSubscriber::parse("petr", "petr@gmail.com").unwrap();
    insert_subscriber(&conf_subscriber, "conf_token", 1, &mut store).unwrap();
    insert_subscriber(&not_conf_subscriber, "conf_token2", 2, &mut store).unwrap();

    assert!(confirm_subscriber("conf_token", &mut store));

    let confirmed: Vec<&Subscriber> = store
        .subscribers()
        .iter()
        .filter(|row| row.status == SubscriberStatus::Confirmed)
        .collect();
    assert_eq!(confirmed.len(), 1);
    assert_eq!(&confirmed[0].name, conf_subscriber.name());
    assert_eq!(
        subscribers::get_confirmed_subscriber_emails(&store),
        vec!["tom@gmail.com".to_string()]
    );
}

#[test]
fn identifiers_are_never_reused() {
    let mut store = Subscriptions::new();
    let subscriber = NewSubscriber::parse("tom", "tom@gmail.com").unwrap();
    assert_eq!(insert_subscriber(&subscriber, "a", 1, &mut store), Ok(0));
    assert_eq!(insert_subscriber(&subscriber, "b", 2, &mut store), Ok(1));
    assert_eq!(insert_subscriber(&subscriber, "c", 3, &mut store), Ok(2));
    let ids: Vec<u128> = store.subscribers().iter().map(|row| row.id).collect();
    assert_eq!(ids, vec![0, 1, 2]);
}

#[test]
fn a_token_belongs_to_one_subscriber() {
    let mut store = Subscriptions::new();
    let tom = NewSubscriber::parse("tom", "tom@gmail.com").unwrap();
    let petr = NewSubscriber::parse("petr", "petr@gmail.com").unwrap();
    assert_eq!(insert_subscriber(&tom, "conf_token", 1, &mut store), Ok(0));
    assert_eq!(
        insert_subscriber(&petr, "conf_token", 2, &mut store),
        Err(StoreError::UniqueViolation)
    );
    assert_eq!(store.subscribers().len(), 1);
    assert_eq!(store.subscribers()[0].name, "tom");
}

#[test]
fn confirming_twice_is_confirming_once() {
    let mut store = Subscriptions::new();
    let tom = NewSubscriber::parse("tom", "tom@gmail.com").unwrap();
    let petr = NewSubscriber::parse("petr", "petr@gmail.com").unwrap();
    insert_subscriber(&tom, "conf_token", 1, &mut store).unwrap();
    insert_subscriber(&petr, "conf_token2", 2, &mut store).unwrap();

    assert!(confirm_subscriber("conf_token2", &mut store));
    let once: Vec<Subscriber> = store.subscribers().clone();
    assert!(confirm_subscriber("conf_token2", &mut store));
    let twice = store.subscribers();

    assert_eq!(once.len(), twice.len());
    for (a, b) in once.iter().zip(twice.iter()) {
        assert_eq!(a.id, b.id);
        assert_eq!(a.name, b.name);
        assert_eq!(a.email, b.email);
        assert_eq!(a.confirmation_token, b.confirmation_token);
        assert_eq!(a.status, b.status);
        assert_eq!(a.subscribed_at, b.subscribed_at);
    }
    assert_eq!(twice[0].status, SubscriberStatus::PendingConfirmation);
    assert_eq!(twice[1].status, SubscriberStatus::Confirmed);
}

#[test]
fn an_unknown_token_changes_nothing() {
    let mut store = Subscriptions::new();
    let tom = NewSubscriber::parse("tom", "tom@gmail.com").unwrap();
    insert_subscriber(&tom, "conf_token", 1, &mut store).unwrap();
    assert!(!confirm_subscriber("not-a-real-token", &mut store));
    assert!(!confirm_subscriber("", &mut store));
    assert!(!confirm_subscriber("conf_token ", &mut store));
    assert_eq!(store.subscribers().len(), 1);
    assert_eq!(store.subscribers()[0].status, SubscriberStatus::PendingConfirmation);
    assert!(subscribers::get_confirmed_subscriber_emails(&store).is_empty());
}

#[test]
fn recipients_keep_the_order_of_the_registry() {
    let mut store = Subscriptions::new();
    for (i, name) in ["a", "b", "c", "d"].iter().enumerate() {
        let subscriber = NewSubscriber::parse(name, &format!("{}@x.org", name)).unwrap();
        insert_subscriber(&subscriber, &format!("t{}", i), i as i64, &mut store).unwrap();
    }
    assert!(confirm_subscriber("t3", &mut store));
    assert!(confirm_subscriber("t0", &mut store));
    assert!(confirm_subscriber("t2", &mut store));
    assert_eq!(
        subscribers::get_confirmed_subscriber_emails(&store),
        vec!["a@x.org".to_string(), "c@x.org".to_string(), "d@x.org".to_string()]
    );
    assert_eq!(
        confirmed_emails_of(store.subscribers()),
        vec!["a@x.org".to_string(), "c@x.org".to_string(), "d@x.org".to_string()]
    );
}

#[test]
fn two_confirmed_subscribers_with_one_address_are_two_recipients() {
    let mut store = Subscriptions::new();
    let first = NewSubscriber::parse("tom", "tom@gmail.com").unwrap();
    let second = NewSubscriber::parse("thomas", "tom@gmail.com").unwrap();
    insert_subscriber(&first, "t1", 1, &mut store).unwrap();
    insert_subscriber(&second, "t2", 2, &mut store).unwrap();
    confirm_subscriber("t1", &mut store);
    assert_eq!(
        subscribers::get_confirmed_subscriber_emails(&store),
        vec!["tom@gmail.com".to_string()]
    );
    confirm_subscriber("t2", &mut store);
    assert_eq!(
        subscribers::get_confirmed_subscriber_emails(&store),
        vec!["tom@gmail.com".to_string(), "tom@gmail.com".to_string()]
    );
}

#[test]
fn status_is_stored_as_text() {
    assert_eq!(SubscriberStatus::PendingConfirmation.as_str(), "pending_confirmation");
    assert_eq!(SubscriberStatus::Confirmed.as_str(), "confirmed");
    assert_eq!(
        SubscriberStatus::parse("pending_confirmation"),
        Some(SubscriberStatus::PendingConfirmation)
    );
    assert_eq!(SubscriberStatus::parse("confirmed"), Some(SubscriberStatus::Confirmed));
    assert_eq!(SubscriberStatus::parse("Confirmed"), None);
    assert_eq!(SubscriberStatus::parse(""), None);
    assert_eq!(SubscriberStatus::PendingConfirmation.confirm(), SubscriberStatus::Confirmed);
    assert_eq!(SubscriberStatus::Confirmed.confirm(), SubscriberStatus::Confirmed);
}
