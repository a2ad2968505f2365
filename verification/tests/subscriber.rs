use zero2prod::domains::subscriber::{
    contains_forbidden_character, is_valid_name, validate, ErrorCode, Field, NewSubscriber,
    ValidationError, ValidationErrors, NAME_MAX_LENGTH,
};

#[test]
fn valid_case() {
    assert!(NewSubscriber::parse("test", "test@test.com").is_ok());
}

#[test]
fn long_name() {
    match NewSubscriber::parse("t".repeat(257).as_ref(), "test@test.com") {
        Ok(_) => panic!("NewSubscriber parsing error"),
        Err(e) => {
            assert!(ValidationErrors::has_error(&Err(e.clone()), "name"));
            assert!(!ValidationErrors::has_error(&Err(e), "email"));
        }
    }
}

#[test]
fn forbidden_char_in_name_is_rejected() {
    match NewSubscriber::parse("test(t", "test@test.com") {
        Ok(_) => panic!("NewSubscriber parsing error"),
        Err(e) => assert!(ValidationErrors::has_error(&Err(e), "name")),
    }
}

#[test]
fn invalid_email() {
    match NewSubscriber::parse("test", "test@.com") {
        Ok(_) => panic!("NewSubscriber parsing error"),
        Err(e) => {
            assert!(ValidationErrors::has_error(&Err(e.clone()), "email"));
            assert!(!ValidationErrors::has_error(&Err(e), "name"));
        }
    }
}

#[test]
fn parsed_subscriber_keeps_name_and_email() {
    let subscriber = NewSubscriber::parse("le guin", "le_guin@email.com").unwrap();
    assert_eq!(subscriber.name(), "le guin");
    assert_eq!(subscriber.email(), "le_guin@email.com");
    let copy = subscriber.clone();
    assert_eq!(copy.name(), "le guin");
    assert_eq!(copy.email(), "le_guin@email.com");
}

#[test]
fn empty_name_is_a_length_violation() {
    let errors = NewSubscriber::parse("", "a@b.com").unwrap_err();
    assert_eq!(
        errors.errors(),
        &vec![(Field::Name, ValidationError { code: ErrorCode::Length })]
    );
    assert!(errors.names(Field::Name));
    assert!(!errors.names(Field::Email));
    assert!(!errors.is_empty());
}

#[test]
fn name_length_is_counted_in_characters() {
    assert_eq!(NAME_MAX_LENGTH, 256);
    assert!(NewSubscriber::parse("t".repeat(256).as_ref(), "test@test.com").is_ok());
    assert!(NewSubscriber::parse("t", "test@test.com").is_ok());
    // 256 characters of two bytes each
    assert!(NewSubscriber::parse("é".repeat(256).as_ref(), "test@test.com").is_ok());
    assert!(NewSubscriber::parse("é".repeat(257).as_ref(), "test@test.com").is_err());
}

#[test]
fn every_forbidden_character_is_rejected() {
    for c in ['/', '(', ')', '"', '<', '>', '\\', '{', '}'] {
        let name = format!("te{}st", c);
        assert!(contains_forbidden_character(&name));
        assert_eq!(is_valid_name(&name), Err(ValidationError::new(ErrorCode::Contains)));
        let errors = NewSubscriber::parse(&name, "test@test.com").unwrap_err();
        assert_eq!(
            errors.errors(),
            &vec![(Field::Name, ValidationError { code: ErrorCode::Contains })]
        );
    }
    for name in ["test", "le guin", "o'neil", "a-b_c.d", "[x]", "ürsula"] {
        assert!(!contains_forbidden_character(name));
        assert_eq!(is_valid_name(name), Ok(()));
    }
}

#[test]
fn all_violations_are_reported_together() {
    let name = format!("{}<", "t".repeat(257));
    let errors = NewSubscriber::parse(&name, "not-an-email").unwrap_err();
    assert_eq!(
        errors.errors(),
        &vec![
            (Field::Name, ValidationError { code: ErrorCode::Length }),
            (Field::Name, ValidationError { code: ErrorCode::Contains }),
            (Field::Email, ValidationError { code: ErrorCode::Email }),
        ]
    );
    let result = Err(errors);
    assert!(ValidationErrors::has_error(&result, "name"));
    assert!(ValidationErrors::has_error(&result, "email"));
    assert!(!ValidationErrors::has_error(&result, "password"));
    assert!(!ValidationErrors::has_error(&result, "title"));
    assert!(!ValidationErrors::has_error(&Ok(()), "name"));
}

#[test]
fn validate_takes_the_email_as_judged() {
    assert!(validate("test", true).is_ok());
    let errors = validate("test", false).unwrap_err();
    assert_eq!(
        errors.errors(),
        &vec![(Field::Email, ValidationError { code: ErrorCode::Email })]
    );
    let errors = validate("", true).unwrap_err();
    assert_eq!(
        errors.errors(),
        &vec![(Field::Name, ValidationError { code: ErrorCode::Length })]
    );
}

#[test]
fn email_syntax_is_checked() {
    for email in ["test@test.com", "le_guin@email.com", "abc@bar", "email@[127.0.0.1]"] {
        assert!(NewSubscriber::parse("test", email).is_ok(), "{}", email);
    }
    for email in ["", "abc", "abc@", "test@.com", "a @x.cz", "something@@somewhere.com"] {
        let errors = NewSubscriber::parse("test", email).unwrap_err();
        assert_eq!(
            errors.errors(),
            &vec![(Field::Email, ValidationError { code: ErrorCode::Email })],
            "{}",
            email
        );
    }
}

#[test]
fn codes_and_fields_have_their_texts() {
    assert_eq!(ErrorCode::Length.as_str(), "length");
    assert_eq!(ErrorCode::Contains.as_str(), "contains");
    assert_eq!(ErrorCode::Email.as_str(), "email");
    assert_eq!(Field::Name.as_str(), "name");
    assert_eq!(Field::Email.as_str(), "email");
    assert_eq!(Field::Password.as_str(), "password");
}
