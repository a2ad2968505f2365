//! The credentials of an operator, which come before a newsletter issue.
//!
//! An operator presents a name and a password. This module asks for the
//! keyed hash that is registered under the name, prepares the check of the
//! password against it, and reads what the hash verifier found. The verifier
//! and its key are with the caller.

use crate::domains::users::{User, UserView};
use vstd::prelude::*;

verus! {

/// What an operator presents: a name, and a password unless it was left out.
#[derive(Debug)]
pub struct Credentials {
    pub username: String,
    pub password: Option<String>,
}

/// What `Credentials` hold.
pub ghost struct CredentialsView {
    pub username: Seq<char>,
    pub password: Option<Seq<char>>,
}

impl View for Credentials {
    type V = CredentialsView;

    open spec fn view(&self) -> CredentialsView {
        CredentialsView {
            username: self.username@,
            password: match self.password {
                Some(password) => Some(password@),
                None => None,
            },
        }
    }
}

/// The request was not authenticated. Nothing tells an unknown name from a
/// wrong password.
#[derive(Clone, Copy, Debug, PartialEq, Eq, Structural)]
pub struct AuthenticationError;

impl AuthenticationError {
    /// The status with which the error is answered: 401.
    pub fn status_code(&self) -> (status: u16)
        ensures
            status == 401,
    {
        401
    }
}

/// The hash verifier could not decide: the registered hash is malformed,
/// or the computation failed.
#[derive(Clone, Copy, Debug, PartialEq, Eq, Structural)]
pub struct VerifierFailure;

/// A question for the hash verifier: is `expected_password_hash` the keyed
/// hash of `password`?
#[derive(Debug)]
pub struct PasswordCheck {
    pub password: String,
    pub expected_password_hash: String,
}

/// What a `PasswordCheck` holds.
pub ghost struct PasswordCheckView {
    pub password: Seq<char>,
    pub expected_password_hash: Seq<char>,
}

impl View for PasswordCheck {
    type V = PasswordCheckView;

    open spec fn view(&self) -> PasswordCheckView {
        PasswordCheckView {
            password: self.password@,
            expected_password_hash: self.expected_password_hash@,
        }
    }
}

/// What `str::trim` returns for a text: the text without the whitespace at
/// its start and at its end.
pub uninterp spec fn trimmed(text: Seq<char>) -> Seq<char>;

/// Calls `str::trim`, which decides from the text alone; the contract gives
/// its result the name `trimmed`.
#[verifier::external_body]
fn trim(text: &str) -> (inner: &str)
    ensures
        inner@ == trimmed(text@),
{
    text.trim()
}

/// The password that is checked: the presented one without the whitespace
/// around it, and the empty text where none was presented.
pub open spec fn presented_password(password: Option<Seq<char>>) -> Seq<char> {
    match password {
        Some(password) => trimmed(password),
        None => trimmed(Seq::empty()),
    }
}

/// The request is authenticated if and only if the verifier found that the
/// password matches. A verifier that could not decide counts as a mismatch.
pub open spec fn password_accepted(verification: Result<bool, VerifierFailure>) -> bool {
    verification == Ok::<bool, VerifierFailure>(true)
}

/// Reads what the hash verifier found: `true` if and only if it found that
/// the password matches. A failure of the verifier is a refusal, never more.
pub fn check_password(verification: Result<bool, VerifierFailure>) -> (accepted: bool)
    ensures
        accepted == password_accepted(verification),
{
    match verification {
        Ok(matches) => matches,
        Err(_) => false,
    }
}

/// What follows once the registry has answered, for the password as it is to
/// be checked: an unknown name is refused, and for a known one the password
/// is to be checked against the registered hash.
pub open spec fn admission(user: Option<UserView>, password: Seq<char>) -> Result<
    PasswordCheckView,
    AuthenticationError,
> {
    match user {
        None => Err(AuthenticationError),
        Some(user) => Ok(
            PasswordCheckView { password, expected_password_hash: user.password_hash },
        ),
    }
}

/// The view of what `prepare_check` and `basic_auth_validator` return.
pub open spec fn check_view(r: Result<PasswordCheck, AuthenticationError>) -> Result<
    PasswordCheckView,
    AuthenticationError,
> {
    match r {
        Ok(check) => Ok(check@),
        Err(e) => Err(e),
    }
}

/// Refuses the request or prepares the check of the password, for the
/// operator that the registry found under the presented name, if any, and
/// the password as it is to be checked.
pub fn prepare_check(user: Option<User>, password: &str) -> (r: Result<
    PasswordCheck,
    AuthenticationError,
>)
    ensures
        check_view(r) == admission(
            match user {
                Some(user) => Some(user@),
                None => None,
            },
            password@,
        ),
{
    match user {
        None => Err(AuthenticationError),
        Some(user) => Ok(
            PasswordCheck {
                password: password.to_owned(),
                expected_password_hash: user.password_hash,
            },
        ),
    }
}

/// Refuses the request or prepares the check of the password, for the
/// operator that the registry found under the presented name, if any. The
/// presented password is checked without the whitespace around it, and a
/// password that was left out as the empty text.
pub fn basic_auth_validator(user: Option<User>, credentials: &Credentials) -> (r: Result<
    PasswordCheck,
    AuthenticationError,
>)
    ensures
        check_view(r) == admission(
            match user {
                Some(user) => Some(user@),
                None => None,
            },
            presented_password(credentials@.password),
        ),
{
    let password = match &credentials.password {
        Some(password) => trim(password.as_str()),
        None => trim(""),
    };
    proof {
        reveal_strlit("");
        assert(""@ == Seq::<char>::empty());
    }
    prepare_check(user, password)
}

} // verus!
