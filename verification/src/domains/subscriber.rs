//! A proposed subscriber and the rules that a name and an e-mail address
//! have to meet.

use vstd::prelude::*;

verus! {

/// The longest name that is accepted, in characters.
pub const NAME_MAX_LENGTH: usize = 256;

/// The characters that a name must not contain.
pub open spec fn is_forbidden_character(c: char) -> bool {
    c == '/' || c == '(' || c == ')' || c == '"' || c == '<' || c == '>' || c == '\\' || c == '{'
        || c == '}'
}

/// Some character of `name` is forbidden.
pub open spec fn has_forbidden_character(name: Seq<char>) -> bool {
    exists|i: int| 0 <= i < name.len() && is_forbidden_character(#[trigger] name[i])
}

/// A name has between one and `NAME_MAX_LENGTH` characters.
pub open spec fn name_length_ok(name: Seq<char>) -> bool {
    1 <= name.len() <= NAME_MAX_LENGTH
}

/// A name is valid where both of its rules are met.
pub open spec fn name_is_valid(name: Seq<char>) -> bool {
    name_length_ok(name) && !has_forbidden_character(name)
}

/// Whether `c` is one of the forbidden characters.
fn forbidden(c: char) -> (b: bool)
    ensures
        b == is_forbidden_character(c),
{
    c == '/' || c == '(' || c == ')' || c == '"' || c == '<' || c == '>' || c == '\\' || c == '{'
        || c == '}'
}

/// Whether `name` holds one of the forbidden characters.
pub fn contains_forbidden_character(name: &str) -> (found: bool)
    ensures
        found == has_forbidden_character(name@),
{
    let mut found = false;
    let characters = name.chars();
    for c in it: characters
        invariant
            it.seq() == name@,
            found == has_forbidden_character(name@.take(it.index())),
    {
        proof {
            let before = name@.take(it.index());
            let after = name@.take(it.index() + 1);
            assert(after == before.push(c));
            if has_forbidden_character(before) {
                let i = choose|i: int|
                    0 <= i < before.len() && is_forbidden_character(#[trigger] before[i]);
                assert(is_forbidden_character(after[i]));
            }
            if is_forbidden_character(c) {
                assert(is_forbidden_character(after[it.index()]));
            }
        }
        if forbidden(c) {
            found = true;
        }
    }
    assert(name@.take(name@.len() as int) == name@);
    found
}

/// A field of a submission.
#[derive(Clone, Copy, Debug, PartialEq, Eq, Structural)]
pub enum Field {
    Name,
    Email,
    Password,
}

/// The name of a field as text.
pub open spec fn field_text(field: Field) -> Seq<char> {
    match field {
        Field::Name => "name"@,
        Field::Email => "email"@,
        Field::Password => "password"@,
    }
}

impl Field {
    /// The name of the field as text.
    pub fn as_str(&self) -> (text: &'static str)
        ensures
            text@ == field_text(*self),
    {
        match self {
            Field::Name => "name",
            Field::Email => "email",
            Field::Password => "password",
        }
    }
}

/// What went wrong with one field, as a code.
#[derive(Clone, Copy, Debug, PartialEq, Eq, Structural)]
pub enum ErrorCode {
    /// The length is outside the accepted range.
    Length,
    /// A forbidden character occurs.
    Contains,
    /// The text is no e-mail address.
    Email,
}

impl ErrorCode {
    /// The code as text.
    pub fn as_str(&self) -> (text: &'static str)
        ensures
            text@ == match *self {
                ErrorCode::Length => "length"@,
                ErrorCode::Contains => "contains"@,
                ErrorCode::Email => "email"@,
            },
    {
        match self {
            ErrorCode::Length => "length",
            ErrorCode::Contains => "contains",
            ErrorCode::Email => "email",
        }
    }
}

/// One violated rule.
#[derive(Clone, Copy, Debug, PartialEq, Eq, Structural)]
pub struct ValidationError {
    pub code: ErrorCode,
}

impl ValidationError {
    /// The violation of the rule with the code `code`.
    pub fn new(code: ErrorCode) -> (error: ValidationError)
        ensures
            error.code == code,
    {
        ValidationError { code }
    }
}

/// The violated rules of a submission, each with the field that it is
/// about, in the order in which the rules are checked. A value that a check
/// returns holds at least one.
#[derive(Debug)]
pub struct ValidationErrors {
    errors: Vec<(Field, ValidationError)>,
}

impl View for ValidationErrors {
    type V = Seq<(Field, ValidationError)>;

    closed spec fn view(&self) -> Seq<(Field, ValidationError)> {
        self.errors@
    }
}

impl Clone for ValidationErrors {
    fn clone(&self) -> (copy: ValidationErrors)
        ensures
            copy@ == self@,
    {
        let mut errors: Vec<(Field, ValidationError)> = Vec::new();
        let mut i: usize = 0;
        while i < self.errors.len()
            invariant
                0 <= i <= self.errors.len(),
                errors@ == self.errors@.take(i as int),
            decreases self.errors.len() - i,
        {
            errors.push(self.errors[i]);
            assert(self.errors@.take(i + 1) == self.errors@.take(i as int).push(
                self.errors@[i as int],
            ));
            i += 1;
        }
        assert(self.errors@.take(self.errors@.len() as int) == self.errors@);
        ValidationErrors { errors }
    }
}

/// Some violation of `errors` is about `field`.
pub open spec fn names_field(errors: Seq<(Field, ValidationError)>, field: Field) -> bool {
    exists|i: int| 0 <= i < errors.len() && (#[trigger] errors[i]).0 == field
}

/// The violation of the rule `code` by `field`, as a list of one.
pub open spec fn violation(field: Field, code: ErrorCode) -> Seq<(Field, ValidationError)> {
    seq![(field, ValidationError { code })]
}

/// The violation of the rule `code` by `field` where `violated` holds, and
/// none where it does not.
pub open spec fn violation_if(violated: bool, field: Field, code: ErrorCode) -> Seq<
    (Field, ValidationError),
> {
    if violated {
        violation(field, code)
    } else {
        Seq::empty()
    }
}

/// The violations of a submission with the name `name`, given whether the
/// syntax of its e-mail address is accepted: the length of the name, its
/// characters, the e-mail address.
pub open spec fn violations(name: Seq<char>, email_is_valid: bool) -> Seq<
    (Field, ValidationError),
> {
    violation_if(!name_length_ok(name), Field::Name, ErrorCode::Length) + violation_if(
        has_forbidden_character(name),
        Field::Name,
        ErrorCode::Contains,
    ) + violation_if(!email_is_valid, Field::Email, ErrorCode::Email)
}

/// The field that `text` names, if it names one.
pub open spec fn field_of_text(text: Seq<char>) -> Option<Field> {
    if text == "name"@ {
        Some(Field::Name)
    } else if text == "email"@ {
        Some(Field::Email)
    } else if text == "password"@ {
        Some(Field::Password)
    } else {
        None
    }
}

impl ValidationErrors {
    /// No violations yet.
    pub(crate) fn new() -> (errors: ValidationErrors)
        ensures
            errors@ == Seq::<(Field, ValidationError)>::empty(),
    {
        ValidationErrors { errors: Vec::new() }
    }

    /// Adds the violation `error` of `field`.
    pub(crate) fn add(&mut self, field: Field, error: ValidationError)
        ensures
            final(self)@ == old(self)@.push((field, error)),
    {
        self.errors.push((field, error));
    }

    /// Whether nothing is violated.
    pub fn is_empty(&self) -> (empty: bool)
        ensures
            empty == (self@.len() == 0),
    {
        self.errors.len() == 0
    }

    /// The violations, each with its field.
    pub fn errors(&self) -> (errors: &Vec<(Field, ValidationError)>)
        ensures
            errors@ == self@,
    {
        &self.errors
    }

    /// Whether some violation is about `field`.
    pub fn names(&self, field: Field) -> (named: bool)
        ensures
            named == names_field(self@, field),
    {
        let mut i: usize = 0;
        while i < self.errors.len()
            invariant
                0 <= i <= self.errors.len(),
                forall|j: int| 0 <= j < i ==> (#[trigger] self@[j]).0 != field,
            decreases self.errors.len() - i,
        {
            if self.errors[i].0 == field {
                return true;
            }
            i += 1;
        }
        false
    }

    /// Whether `result` is a failure with a violation about the field that
    /// `field` names. A text that names no field gives `false`.
    pub fn has_error(result: &Result<(), ValidationErrors>, field: &str) -> (has: bool)
        ensures
            has == match (*result, field_of_text(field@)) {
                (Err(errors), Some(named)) => names_field(errors@, named),
                _ => false,
            },
    {
        match result {
            Ok(_) => false,
            Err(errors) => {
                let wanted = field.to_owned();
                if wanted == "name".to_owned() {
                    errors.names(Field::Name)
                } else if wanted == "email".to_owned() {
                    errors.names(Field::Email)
                } else if wanted == "password".to_owned() {
                    errors.names(Field::Password)
                } else {
                    false
                }
            },
        }
    }
}

/// Checks the name and returns the violation of the character rule, if any.
pub fn is_valid_name(name: &str) -> (r: Result<(), ValidationError>)
    ensures
        r is Ok <==> !has_forbidden_character(name@),
        r matches Err(error) ==> error.code == ErrorCode::Contains,
{
    if contains_forbidden_character(name) {
        return Err(ValidationError::new(ErrorCode::Contains));
    }
    Ok(())
}

/// Whether `validator::validate_email` accepts the text as an e-mail address.
/// It goes by the HTML5 rules for the local part and the domain, with limits
/// on the length of both, and accepts an address literal in brackets and an
/// internationalised domain.
pub uninterp spec fn email_syntax_ok(email: Seq<char>) -> bool;

/// Calls `validator::validate_email`, which decides from the text alone; the
/// contract gives its answer the name `email_syntax_ok`.
#[verifier::external_body]
fn validate_email(email: &str) -> (ok: bool)
    ensures
        ok == email_syntax_ok(email@),
{
    validator::validate_email(email)
}

/// Checks a submission with the name `name`, given whether the syntax of its
/// e-mail address is accepted. Both rules on the name are checked, whatever
/// the first one gives.
pub fn validate(name: &str, email_is_valid: bool) -> (r: Result<(), ValidationErrors>)
    ensures
        r is Ok <==> name_is_valid(name@) && email_is_valid,
        r matches Err(errors) ==> errors@ == violations(name@, email_is_valid) && errors@.len()
            > 0,
{
    let mut errors = ValidationErrors::new();
    let length: usize = name.unicode_len();
    if length < 1 || length > NAME_MAX_LENGTH {
        errors.add(Field::Name, ValidationError::new(ErrorCode::Length));
    }
    match is_valid_name(name) {
        Ok(_) => {},
        Err(error) => {
            errors.add(Field::Name, error);
        },
    }
    if !email_is_valid {
        errors.add(Field::Email, ValidationError::new(ErrorCode::Email));
    }
    assert(errors@ == violations(name@, email_is_valid));
    if errors.is_empty() {
        Ok(())
    } else {
        Err(errors)
    }
}

/// What a failed check names: the name where one of its rules is violated,
/// the e-mail address where its syntax is not accepted, and both where both
/// are at fault.
pub proof fn lemma_violations_name_the_fields(name: Seq<char>, email_is_valid: bool)
    ensures
        names_field(violations(name, email_is_valid), Field::Name) <==> !name_is_valid(name),
        names_field(violations(name, email_is_valid), Field::Email) <==> !email_is_valid,
        !names_field(violations(name, email_is_valid), Field::Password),
{
    let all = violations(name, email_is_valid);
    let length = violation_if(!name_length_ok(name), Field::Name, ErrorCode::Length);
    let characters = violation_if(has_forbidden_character(name), Field::Name, ErrorCode::Contains);
    let email = violation_if(!email_is_valid, Field::Email, ErrorCode::Email);
    assert(all == length + characters + email);
    if !name_length_ok(name) {
        assert(all[0].0 == Field::Name);
    } else if has_forbidden_character(name) {
        assert(all[0].0 == Field::Name);
    }
    if !email_is_valid {
        assert(all[all.len() - 1].0 == Field::Email);
    }
}

/// A submission that met every rule.
#[derive(Debug)]
pub struct NewSubscriber {
    name: String,
    email: String,
}

/// What a `NewSubscriber` holds.
pub ghost struct NewSubscriberView {
    pub name: Seq<char>,
    pub email: Seq<char>,
}

impl View for NewSubscriber {
    type V = NewSubscriberView;

    closed spec fn view(&self) -> NewSubscriberView {
        NewSubscriberView { name: self.name@, email: self.email@ }
    }
}

impl Clone for NewSubscriber {
    fn clone(&self) -> (copy: NewSubscriber)
        ensures
            copy@ == self@,
    {
        proof {
            use_type_invariant(self);
        }
        NewSubscriber { name: self.name.clone(), email: self.email.clone() }
    }
}

impl NewSubscriber {
    #[verifier::type_invariant]
    closed spec fn rules_met(self) -> bool {
        name_is_valid(self.name@) && email_syntax_ok(self.email@)
    }

    /// Accepts a name and an e-mail address, or names every rule that they
    /// violate.
    pub fn parse(name: &str, email: &str) -> (r: Result<NewSubscriber, ValidationErrors>)
        ensures
            r is Ok <==> name_is_valid(name@) && email_syntax_ok(email@),
            r matches Ok(subscriber) ==> subscriber@.name == name@ && subscriber@.email == email@,
            r matches Err(errors) ==> errors@ == violations(name@, email_syntax_ok(email@))
                && errors@.len() > 0,
    {
        let email_is_valid = validate_email(email);
        match validate(name, email_is_valid) {
            Ok(_) => Ok(NewSubscriber { name: name.to_owned(), email: email.to_owned() }),
            Err(errors) => Err(errors),
        }
    }

    /// The name, which meets both rules on names.
    pub fn name(&self) -> (name: &String)
        ensures
            name@ == self@.name,
            name_is_valid(name@),
    {
        proof {
            use_type_invariant(self);
        }
        &self.name
    }

    /// The e-mail address, whose syntax is accepted.
    pub fn email(&self) -> (email: &String)
        ensures
            email@ == self@.email,
            email_syntax_ok(email@),
    {
        proof {
            use_type_invariant(self);
        }
        &self.email
    }
}

} // verus!
