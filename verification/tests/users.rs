use zero2prod::domains::subscriber::{ErrorCode, Field, ValidationError};
use zero2prod::domains::users::{
    add_user, get_all, get_by_name, NewUser, Users, PASSWORD_MIN_LENGTH,
};
use zero2prod::domains::StoreError;

#[test]
fn saving_and_getting_user() {
    let mut store = Users::new();
    let new_user = NewUser::parse("tom", "password", "$argon2id$v=19$stored").unwrap();
    assert!(add_user(new_user, &mut store).is_ok());
    assert!(get_by_name("tom", &store).is_some());
    assert!(get_by_name("john", &store).is_none());
}

#[test]
fn a_registered_operator_keeps_name_and_hash() {
    let mut store = Users::new();
    let tom = NewUser::parse("tom", "password", "hash-of-tom").unwrap();
    assert_eq!(tom.name(), "tom");
    assert_eq!(tom.password_hash(), "hash-of-tom");
    let added = add_user(tom, &mut store).unwrap();
    assert_eq!(added.id, 1);
    assert_eq!(added.username, "tom");
    assert_eq!(added.password_hash, "hash-of-tom");

    let ann = NewUser::parse("ann", "passw0rd", "hash-of-ann").unwrap();
    let added = add_user(ann, &mut store).unwrap();
    assert_eq!(added.id, 2);

    let found = get_by_name("ann", &store).unwrap();
    assert_eq!(found.id, 2);
    assert_eq!(found.username, "ann");
    assert_eq!(found.password_hash, "hash-of-ann");

    let all = get_all(&store);
    assert_eq!(all.len(), 2);
    assert_eq!(all[0].username, "tom");
    assert_eq!(all[1].username, "ann");
}

#[test]
fn a_name_belongs_to_one_operator() {
    let mut store = Users::new();
    let tom = NewUser::parse("tom", "password", "first").unwrap();
    let other = NewUser::parse("tom", "different", "second").unwrap();
    add_user(tom, &mut store).unwrap();
    match add_user(other, &mut store) {
        Err(e) => assert_eq!(e, StoreError::UniqueViolation),
        Ok(_) => panic!("a second operator took the name"),
    }
    assert_eq!(get_all(&store).len(), 1);
    assert_eq!(get_by_name("tom", &store).unwrap().password_hash, "first");
}

#[test]
fn new_operators_are_checked() {
    assert_eq!(PASSWORD_MIN_LENGTH, 6);
    assert!(NewUser::parse("tom", "passwo", "h").is_ok());
    assert!(NewUser::parse(&"t".repeat(256), "passwo", "h").is_ok());

    let errors = NewUser::parse("tom", "passw", "h").err().unwrap();
    assert_eq!(
        errors.errors(),
        &vec![(Field::Password, ValidationError { code: ErrorCode::Length })]
    );
    let errors = NewUser::parse("", "password", "h").err().unwrap();
    assert_eq!(
        errors.errors(),
        &vec![(Field::Name, ValidationError { code: ErrorCode::Length })]
    );
    let errors = NewUser::parse(&"t".repeat(257), "", "h").err().unwrap();
    assert_eq!(
        errors.errors(),
        &vec![
            (Field::Name, ValidationError { code: ErrorCode::Length }),
            (Field::Password, ValidationError { code: ErrorCode::Length }),
        ]
    );
    // the rule on characters is for subscribers only
    assert!(NewUser::parse("tom(", "password", "h").is_ok());
}
