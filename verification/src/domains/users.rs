//! The operators who may send a newsletter issue, and their registry.

use crate::domains::subscriber::{
    name_length_ok, violation_if, ErrorCode, Field, ValidationError, ValidationErrors,
    NAME_MAX_LENGTH,
};
use crate::domains::StoreError;
use vstd::prelude::*;

verus! {

/// The shortest password that is accepted, in characters.
pub const PASSWORD_MIN_LENGTH: usize = 6;

/// A password has at least `PASSWORD_MIN_LENGTH` characters.
pub open spec fn password_length_ok(password: Seq<char>) -> bool {
    password.len() >= PASSWORD_MIN_LENGTH
}

/// The rules that a new operator violates: the length of the name, then the
/// length of the password.
pub open spec fn user_violations(name: Seq<char>, password: Seq<char>) -> Seq<
    (Field, ValidationError),
> {
    violation_if(!name_length_ok(name), Field::Name, ErrorCode::Length) + violation_if(
        !password_length_ok(password),
        Field::Password,
        ErrorCode::Length,
    )
}

/// An operator as the registry holds it. The password is kept as a keyed
/// hash only.
#[derive(Debug)]
pub struct User {
    pub id: i32,
    pub username: String,
    pub password_hash: String,
}

/// What a `User` holds.
pub ghost struct UserView {
    pub id: i32,
    pub username: Seq<char>,
    pub password_hash: Seq<char>,
}

impl View for User {
    type V = UserView;

    open spec fn view(&self) -> UserView {
        UserView { id: self.id, username: self.username@, password_hash: self.password_hash@ }
    }
}

impl Clone for User {
    fn clone(&self) -> (copy: User)
        ensures
            copy@ == self@,
    {
        User {
            id: self.id,
            username: self.username.clone(),
            password_hash: self.password_hash.clone(),
        }
    }
}

/// An operator that is to be registered: a name and a password that met the
/// rules, and the keyed hash of the password.
pub struct NewUser {
    name: String,
    password: String,
    password_hash: String,
}

/// What a `NewUser` holds.
pub ghost struct NewUserView {
    pub name: Seq<char>,
    pub password: Seq<char>,
    pub password_hash: Seq<char>,
}

impl View for NewUser {
    type V = NewUserView;

    closed spec fn view(&self) -> NewUserView {
        NewUserView {
            name: self.name@,
            password: self.password@,
            password_hash: self.password_hash@,
        }
    }
}

impl NewUser {
    #[verifier::type_invariant]
    closed spec fn rules_met(self) -> bool {
        name_length_ok(self.name@) && password_length_ok(self.password@)
    }

    /// Accepts the name and the password of a new operator, with the keyed
    /// hash of the password, or names every rule that they violate.
    pub fn parse(name: &str, password: &str, password_hash: &str) -> (r: Result<
        NewUser,
        ValidationErrors,
    >)
        ensures
            r is Ok <==> name_length_ok(name@) && password_length_ok(password@),
            r matches Ok(user) ==> user@ == (NewUserView {
                name: name@,
                password: password@,
                password_hash: password_hash@,
            }),
            r matches Err(errors) ==> errors@ == user_violations(name@, password@) && errors@.len()
                > 0,
    {
        let mut errors = ValidationErrors::new();
        let name_length: usize = name.unicode_len();
        if name_length < 1 || name_length > NAME_MAX_LENGTH {
            errors.add(Field::Name, ValidationError::new(ErrorCode::Length));
        }
        if password.unicode_len() < PASSWORD_MIN_LENGTH {
            errors.add(Field::Password, ValidationError::new(ErrorCode::Length));
        }
        assert(errors@ == user_violations(name@, password@));
        if errors.is_empty() {
            Ok(
                NewUser {
                    name: name.to_owned(),
                    password: password.to_owned(),
                    password_hash: password_hash.to_owned(),
                },
            )
        } else {
            Err(errors)
        }
    }

    /// The name, which has an accepted length.
    pub fn name(&self) -> (name: &String)
        ensures
            name@ == self@.name,
            name_length_ok(name@),
    {
        proof {
            use_type_invariant(self);
        }
        &self.name
    }

    /// The keyed hash of the password.
    pub fn password_hash(&self) -> (hash: &String)
        ensures
            hash@ == self@.password_hash,
    {
        &self.password_hash
    }
}

/// The operators of `rows`, each by what it holds.
pub open spec fn user_views(rows: Seq<User>) -> Seq<UserView> {
    rows.map_values(|row: User| row@)
}

/// Some operator of `rows` has the name `username`.
pub open spec fn holds_username(rows: Seq<UserView>, username: Seq<char>) -> bool {
    exists|i: int| 0 <= i < rows.len() && (#[trigger] rows[i]).username == username
}

/// What the registry guarantees of its operators: no two share a name, and
/// the identifiers count up from one in the order of registration.
pub open spec fn users_well_formed(rows: Seq<UserView>) -> bool {
    &&& forall|i: int, j: int|
        0 <= i < j < rows.len() ==> (#[trigger] rows[i]).username != (#[trigger] rows[j]).username
    &&& forall|i: int| 0 <= i < rows.len() ==> (#[trigger] rows[i]).id == i + 1
    &&& rows.len() <= i32::MAX
}

/// The registry of operators.
#[derive(Debug)]
pub struct Users {
    rows: Vec<User>,
}

impl View for Users {
    type V = Seq<UserView>;

    closed spec fn view(&self) -> Seq<UserView> {
        user_views(self.rows@)
    }
}

impl Users {
    #[verifier::type_invariant]
    closed spec fn guaranteed(self) -> bool {
        users_well_formed(self@)
    }

    /// A registry without operators.
    pub fn new() -> (store: Users)
        ensures
            store@ == Seq::<UserView>::empty(),
    {
        Users { rows: Vec::new() }
    }

    /// Hands out the operators and leaves the registry empty, for an update
    /// that puts them back.
    fn take(&mut self) -> (rows: Vec<User>)
        ensures
            user_views(rows@) == old(self)@,
            users_well_formed(old(self)@),
    {
        proof {
            use_type_invariant(&*self);
        }
        let mut taken = Users::new();
        core::mem::swap(self, &mut taken);
        taken.rows
    }
}

/// The position of the operator with the name `username`, if there is one.
fn position_of(rows: &Vec<User>, username: &String) -> (found: Option<usize>)
    ensures
        found is Some <==> holds_username(user_views(rows@), username@),
        found matches Some(i) ==> i < rows.len() && user_views(rows@)[i as int].username
            == username@,
{
    let mut i: usize = 0;
    while i < rows.len()
        invariant
            0 <= i <= rows.len(),
            forall|j: int| 0 <= j < i ==> (#[trigger] user_views(rows@)[j]).username != username@,
        decreases rows.len() - i,
    {
        if rows[i].username == *username {
            assert(user_views(rows@)[i as int].username == username@);
            return Some(i);
        }
        i += 1;
    }
    None
}

/// Registers `user` and returns it as the registry holds it, with the next
/// identifier. A name that an operator has already is refused, and so is
/// any operator once the identifiers are used up; the registry then stays as
/// it was.
pub fn add_user(user: NewUser, store: &mut Users) -> (r: Result<User, StoreError>)
    ensures
        r is Ok <==> !holds_username(old(store)@, user@.name) && old(store)@.len() < i32::MAX,
        r matches Ok(added) ==> added@ == (UserView {
            id: (old(store)@.len() + 1) as i32,
            username: user@.name,
            password_hash: user@.password_hash,
        }) && final(store)@ == old(store)@.push(added@),
        r matches Err(e) ==> final(store)@ == old(store)@ && e == if holds_username(
            old(store)@,
            user@.name,
        ) {
            StoreError::UniqueViolation
        } else {
            StoreError::OutOfRange
        },
{
    if position_of(&store.rows, user.name()).is_some() {
        return Err(StoreError::UniqueViolation);
    }
    proof {
        use_type_invariant(&*store);
    }
    if store.rows.len() >= i32::MAX as usize {
        return Err(StoreError::OutOfRange);
    }
    let mut rows = store.take();
    let id: i32 = (rows.len() + 1) as i32;
    let row = User {
        id,
        username: user.name().clone(),
        password_hash: user.password_hash().clone(),
    };
    let added = row.clone();
    let ghost before = user_views(rows@);
    rows.push(row);
    proof {
        let after = user_views(rows@);
        assert(after == before.push(row@));
        assert forall|i: int, j: int| 0 <= i < j < after.len() implies (
        #[trigger] after[i]).username != (#[trigger] after[j]).username by {
            if j < before.len() {
                assert(before[i].username != before[j].username);
            } else {
                assert(before[i].username != user@.name);
            }
        }
        assert forall|i: int| 0 <= i < after.len() implies (#[trigger] after[i]).id == i + 1 by {
            if i < before.len() {
                assert(before[i].id == i + 1);
            }
        }
    }
    *store = Users { rows };
    Ok(added)
}

/// The operator with the name `name`, if one is registered.
pub fn get_by_name(name: &str, store: &Users) -> (found: Option<User>)
    ensures
        found is Some <==> holds_username(store@, name@),
        found matches Some(user) ==> user@.username == name@ && store@.contains(user@),
{
    let wanted = name.to_owned();
    match position_of(&store.rows, &wanted) {
        Some(i) => {
            let user = store.rows[i].clone();
            assert(store@[i as int] == user@);
            Some(user)
        },
        None => None,
    }
}

/// Every registered operator, in the order of registration.
pub fn get_all(store: &Users) -> (users: Vec<User>)
    ensures
        user_views(users@) == store@,
{
    let mut users: Vec<User> = Vec::new();
    let mut i: usize = 0;
    while i < store.rows.len()
        invariant
            0 <= i <= store.rows.len(),
            user_views(users@) == store@.take(i as int),
        decreases store.rows.len() - i,
    {
        let user = store.rows[i].clone();
        users.push(user);
        assert(user_views(users@) == store@.take(i as int).push(user@));
        assert(store@.take(i + 1) == store@.take(i as int).push(store@[i as int]));
        i += 1;
    }
    assert(store@.take(store@.len() as int) == store@);
    users
}

} // verus!
