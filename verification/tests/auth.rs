use zero2prod::auth::{
    basic_auth_validator, check_password, prepare_check, AuthenticationError, Credentials,
    VerifierFailure,
};
use zero2prod::domains::users::User;

fn tom() -> User {
    User { id: 1, username: "tom".to_string(), password_hash: "hash-of-tom".to_string() }
}

#[test]
fn only_a_match_is_accepted() {
    assert!(check_password(Ok(true)));
    assert!(!check_password(Ok(false)));
    assert!(!check_password(Err(VerifierFailure)));
}

#[test]
fn an_unknown_operator_is_refused() {
    let credentials =
        Credentials { username: "name".to_string(), password: Some("password".to_string()) };
    assert_eq!(basic_auth_validator(None, &credentials).err(), Some(AuthenticationError));
    assert_eq!(prepare_check(None, "password").err(), Some(AuthenticationError));
    assert_eq!(AuthenticationError.status_code(), 401);
}

#[test]
fn the_password_is_checked_against_the_registered_hash() {
    let credentials =
        Credentials { username: "tom".to_string(), password: Some("password".to_string()) };
    let check = basic_auth_validator(Some(tom()), &credentials).unwrap();
    assert_eq!(check.password, "password");
    assert_eq!(check.expected_password_hash, "hash-of-tom");
}

#[test]
fn whitespace_around_the_password_is_dropped() {
    let credentials = Credentials {
        username: "tom".to_string(),
        password: Some("  pass word\t\n".to_string()),
    };
    let check = basic_auth_validator(Some(tom()), &credentials).unwrap();
    assert_eq!(check.password, "pass word");

    let check = prepare_check(Some(tom()), "  pass word\t\n").unwrap();
    assert_eq!(check.password, "  pass word\t\n");
}

#[test]
fn a_missing_password_is_the_empty_password() {
    let credentials = Credentials { username: "tom".to_string(), password: None };
    let check = basic_auth_validator(Some(tom()), &credentials).unwrap();
    assert_eq!(check.password, "");
    assert_eq!(check.expected_password_hash, "hash-of-tom");
}
