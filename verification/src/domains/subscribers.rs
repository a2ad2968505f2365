//! The registry of subscribers and the lifecycle of a subscription.
//!
//! A subscriber enters the registry as pending, with the confirmation token
//! that was issued for it, and becomes confirmed when that token is presented.
//! Nothing leaves the registry and no status goes back.

use crate::domains::subscriber::{
    email_syntax_ok, name_is_valid, NewSubscriber, NewSubscriberView,
};
use crate::domains::StoreError;
use vstd::prelude::*;

verus! {

/// Where a subscriber stands in the lifecycle.
#[derive(Clone, Copy, Debug, PartialEq, Eq, Structural)]
pub enum SubscriberStatus {
    PendingConfirmation,
    Confirmed,
}

/// The text under which a status is stored.
pub open spec fn status_text(status: SubscriberStatus) -> Seq<char> {
    match status {
        SubscriberStatus::PendingConfirmation => "pending_confirmation"@,
        SubscriberStatus::Confirmed => "confirmed"@,
    }
}

/// The status that is stored under `text`, if it is one.
pub open spec fn status_of_text(text: Seq<char>) -> Option<SubscriberStatus> {
    if text == "pending_confirmation"@ {
        Some(SubscriberStatus::PendingConfirmation)
    } else if text == "confirmed"@ {
        Some(SubscriberStatus::Confirmed)
    } else {
        None
    }
}

/// A status is read back from its text as it was.
pub proof fn lemma_status_text_round_trip(status: SubscriberStatus)
    ensures
        status_of_text(status_text(status)) == Some(status),
{
    reveal_strlit("pending_confirmation");
    reveal_strlit("confirmed");
    assert("pending_confirmation"@.len() != "confirmed"@.len());
}

impl SubscriberStatus {
    /// The one transition of the lifecycle: whatever the status was, it is
    /// `Confirmed` afterwards.
    pub fn confirm(self) -> (next: SubscriberStatus)
        ensures
            next == SubscriberStatus::Confirmed,
    {
        SubscriberStatus::Confirmed
    }

    /// The text under which the status is stored.
    pub fn as_str(&self) -> (text: &'static str)
        ensures
            text@ == status_text(*self),
    {
        match self {
            SubscriberStatus::PendingConfirmation => "pending_confirmation",
            SubscriberStatus::Confirmed => "confirmed",
        }
    }

    /// Reads a status back from the text under which it is stored.
    pub fn parse(text: &str) -> (status: Option<SubscriberStatus>)
        ensures
            status == status_of_text(text@),
    {
        let given = text.to_owned();
        if given == "pending_confirmation".to_owned() {
            Some(SubscriberStatus::PendingConfirmation)
        } else if given == "confirmed".to_owned() {
            Some(SubscriberStatus::Confirmed)
        } else {
            None
        }
    }
}

/// One subscriber as the registry holds it.
#[derive(Debug)]
pub struct Subscriber {
    pub id: u128,
    pub name: String,
    pub email: String,
    pub confirmation_token: String,
    pub status: SubscriberStatus,
    pub subscribed_at: i64,
}

/// What a `Subscriber` holds.
pub ghost struct SubscriberView {
    pub id: u128,
    pub name: Seq<char>,
    pub email: Seq<char>,
    pub confirmation_token: Seq<char>,
    pub status: SubscriberStatus,
    pub subscribed_at: i64,
}

impl View for Subscriber {
    type V = SubscriberView;

    open spec fn view(&self) -> SubscriberView {
        SubscriberView {
            id: self.id,
            name: self.name@,
            email: self.email@,
            confirmation_token: self.confirmation_token@,
            status: self.status,
            subscribed_at: self.subscribed_at,
        }
    }
}

impl Clone for Subscriber {
    fn clone(&self) -> (copy: Subscriber)
        ensures
            copy@ == self@,
    {
        Subscriber {
            id: self.id,
            name: self.name.clone(),
            email: self.email.clone(),
            confirmation_token: self.confirmation_token.clone(),
            status: self.status,
            subscribed_at: self.subscribed_at,
        }
    }
}

/// The subscribers of `rows`, each by what it holds.
pub open spec fn views(rows: Seq<Subscriber>) -> Seq<SubscriberView> {
    rows.map_values(|row: Subscriber| row@)
}

/// Some subscriber of `rows` has the confirmation token `token`.
pub open spec fn holds_token(rows: Seq<SubscriberView>, token: Seq<char>) -> bool {
    exists|i: int| 0 <= i < rows.len() && (#[trigger] rows[i]).confirmation_token == token
}

/// What the registry guarantees of its subscribers: no two share a
/// confirmation token, the identifier of each is its position, and every name
/// and e-mail address meets the rules for submissions.
pub open spec fn well_formed(rows: Seq<SubscriberView>) -> bool {
    &&& forall|i: int, j: int|
        0 <= i < j < rows.len() ==> (#[trigger] rows[i]).confirmation_token != (
        #[trigger] rows[j]).confirmation_token
    &&& forall|i: int| 0 <= i < rows.len() ==> (#[trigger] rows[i]).id == i
    &&& forall|i: int|
        0 <= i < rows.len() ==> name_is_valid((#[trigger] rows[i]).name) && email_syntax_ok(
            rows[i].email,
        )
}

/// `rows` after the insertion of `subscriber` with the confirmation token
/// `conf_token` at the time `subscribed_at`: the new subscriber comes last,
/// is pending, and has its position as its identifier.
pub open spec fn insert_pending(
    rows: Seq<SubscriberView>,
    subscriber: NewSubscriberView,
    conf_token: Seq<char>,
    subscribed_at: i64,
) -> Seq<SubscriberView> {
    rows.push(
        SubscriberView {
            id: rows.len() as u128,
            name: subscriber.name,
            email: subscriber.email,
            confirmation_token: conf_token,
            status: SubscriberStatus::PendingConfirmation,
            subscribed_at,
        },
    )
}

/// `row` after the token `token` was presented: confirmed if the token is
/// its own, unchanged if not.
pub open spec fn confirmed_by(row: SubscriberView, token: Seq<char>) -> SubscriberView {
    if row.confirmation_token == token {
        SubscriberView { status: SubscriberStatus::Confirmed, ..row }
    } else {
        row
    }
}

/// `rows` after the token `token` was presented.
pub open spec fn confirm_token(rows: Seq<SubscriberView>, token: Seq<char>) -> Seq<
    SubscriberView,
> {
    rows.map_values(|row: SubscriberView| confirmed_by(row, token))
}

/// The address to which a newsletter issue goes for `row`: its e-mail address
/// if it is confirmed, none if it is pending.
pub open spec fn recipient(row: SubscriberView) -> Option<Seq<char>> {
    if row.status == SubscriberStatus::Confirmed {
        Some(row.email)
    } else {
        None
    }
}

/// The e-mail addresses of the confirmed subscribers of `rows`, one for each
/// of them, in the order of `rows`.
pub open spec fn confirmed_emails(rows: Seq<SubscriberView>) -> Seq<Seq<char>> {
    rows.filter_map(|row: SubscriberView| recipient(row))
}

/// The confirmed subscribers of `rows`, in the order of `rows`.
pub open spec fn confirmed_subscribers(rows: Seq<SubscriberView>) -> Seq<SubscriberView> {
    rows.filter(|row: SubscriberView| row.status == SubscriberStatus::Confirmed)
}

/// A newsletter issue goes to the confirmed subscribers and to nobody else:
/// the addresses are those of the confirmed subscribers, one for each of them
/// and in their order.
pub proof fn lemma_one_recipient_for_each_confirmed(rows: Seq<SubscriberView>)
    ensures
        confirmed_emails(rows) == confirmed_subscribers(rows).map_values(
            |row: SubscriberView| row.email,
        ),
    decreases rows.len(),
{
    reveal(Seq::filter);
    let emails = |row: SubscriberView| row.email;
    if rows.len() == 0 {
        assert(confirmed_emails(rows) == confirmed_subscribers(rows).map_values(emails));
    } else {
        let rest = rows.drop_last();
        lemma_one_recipient_for_each_confirmed(rest);
        assert(confirmed_emails(rows) == confirmed_subscribers(rows).map_values(emails));
    }
}

/// The address of a confirmed subscriber is among the recipients, and every
/// recipient is the address of a confirmed subscriber: an address that only
/// pending subscribers have is not among them.
pub proof fn lemma_recipients_are_the_confirmed(rows: Seq<SubscriberView>)
    ensures
        forall|i: int|
            0 <= i < rows.len() && (#[trigger] rows[i]).status == SubscriberStatus::Confirmed
                ==> confirmed_emails(rows).contains(rows[i].email),
        forall|email: Seq<char>| #[trigger]
            confirmed_emails(rows).contains(email) ==> exists|i: int|
                0 <= i < rows.len() && (#[trigger] rows[i]).status == SubscriberStatus::Confirmed
                    && rows[i].email == email,
    decreases rows.len(),
{
    if rows.len() > 0 {
        let rest = rows.drop_last();
        let last = rows.last();
        lemma_recipients_are_the_confirmed(rest);
        let sent = confirmed_emails(rows);
        let sent_rest = confirmed_emails(rest);
        assert(sent == if last.status == SubscriberStatus::Confirmed {
            sent_rest + seq![last.email]
        } else {
            sent_rest
        });
        assert forall|i: int|
            0 <= i < rows.len() && (#[trigger] rows[i]).status
                == SubscriberStatus::Confirmed implies sent.contains(rows[i].email) by {
            if i < rest.len() {
                assert(rest[i] == rows[i]);
                let k = choose|k: int| 0 <= k < sent_rest.len() && sent_rest[k] == rest[i].email;
                assert(sent[k] == rows[i].email);
            } else {
                assert(sent[sent.len() - 1] == last.email);
            }
        }
        assert forall|email: Seq<char>| #[trigger] sent.contains(email) implies exists|i: int|
            0 <= i < rows.len() && (#[trigger] rows[i]).status == SubscriberStatus::Confirmed
                && rows[i].email == email by {
            let k = choose|k: int| 0 <= k < sent.len() && sent[k] == email;
            if k < sent_rest.len() {
                assert(sent_rest[k] == email);
                assert(sent_rest.contains(email));
                let i = choose|i: int|
                    0 <= i < rest.len() && (#[trigger] rest[i]).status
                        == SubscriberStatus::Confirmed && rest[i].email == email;
                assert(rows[i] == rest[i]);
            } else {
                assert(rows[rows.len() - 1] == last);
            }
        }
    }
}

/// Presenting a token changes the status of the subscriber that has it and
/// nothing else, and makes no confirmed subscriber pending.
pub proof fn lemma_confirm_only_confirms(rows: Seq<SubscriberView>, token: Seq<char>)
    ensures
        confirm_token(rows, token).len() == rows.len(),
        forall|i: int|
            0 <= i < rows.len() ==> {
                let before = #[trigger] rows[i];
                let after = confirm_token(rows, token)[i];
                &&& after == SubscriberView { status: after.status, ..before }
                &&& after.status == if before.confirmation_token == token {
                    SubscriberStatus::Confirmed
                } else {
                    before.status
                }
                &&& before.status == SubscriberStatus::Confirmed ==> after.status
                    == SubscriberStatus::Confirmed
            },
{
}

/// Presenting a token twice is the same as presenting it once: the second
/// time finds the same subscriber and leaves the registry as the first time
/// left it.
pub proof fn lemma_confirm_is_idempotent(rows: Seq<SubscriberView>, token: Seq<char>)
    ensures
        confirm_token(confirm_token(rows, token), token) == confirm_token(rows, token),
        holds_token(confirm_token(rows, token), token) == holds_token(rows, token),
        forall|i: int|
            0 <= i < rows.len() && (#[trigger] rows[i]).confirmation_token == token
                ==> confirm_token(rows, token)[i].status == SubscriberStatus::Confirmed,
{
    let once = confirm_token(rows, token);
    assert(confirm_token(once, token) == once);
    if holds_token(rows, token) {
        let i = choose|i: int|
            0 <= i < rows.len() && (#[trigger] rows[i]).confirmation_token == token;
        assert(once[i].confirmation_token == token);
    }
    if holds_token(once, token) {
        let i = choose|i: int|
            0 <= i < once.len() && (#[trigger] once[i]).confirmation_token == token;
        assert(rows[i].confirmation_token == token);
    }
}

/// Presenting a token that no subscriber has changes nothing.
pub proof fn lemma_unknown_token_changes_nothing(rows: Seq<SubscriberView>, token: Seq<char>)
    requires
        !holds_token(rows, token),
    ensures
        confirm_token(rows, token) == rows,
{
    assert forall|i: int| 0 <= i < rows.len() implies confirm_token(rows, token)[i]
        == rows[i] by {
        assert(rows[i].confirmation_token != token);
    }
}

/// The registry of subscribers.
#[derive(Debug)]
pub struct Subscriptions {
    rows: Vec<Subscriber>,
}

impl View for Subscriptions {
    type V = Seq<SubscriberView>;

    closed spec fn view(&self) -> Seq<SubscriberView> {
        views(self.rows@)
    }
}

impl Subscriptions {
    #[verifier::type_invariant]
    closed spec fn guaranteed(self) -> bool {
        well_formed(self@)
    }

    /// A registry without subscribers.
    pub fn new() -> (store: Subscriptions)
        ensures
            store@ == Seq::<SubscriberView>::empty(),
    {
        Subscriptions { rows: Vec::new() }
    }

    /// Hands out the subscribers and leaves the registry empty, for an update
    /// that puts them back.
    fn take(&mut self) -> (rows: Vec<Subscriber>)
        ensures
            views(rows@) == old(self)@,
            well_formed(old(self)@),
    {
        proof {
            use_type_invariant(&*self);
        }
        let mut taken = Subscriptions::new();
        core::mem::swap(self, &mut taken);
        taken.rows
    }

    /// The subscribers, in the order in which they were inserted.
    pub fn subscribers(&self) -> (rows: &Vec<Subscriber>)
        ensures
            views(rows@) == self@,
            well_formed(self@),
    {
        proof {
            use_type_invariant(self);
        }
        &self.rows
    }
}

/// The e-mail addresses of the confirmed subscribers among `rows`, one for
/// each of them, in the order of `rows`.
pub fn confirmed_emails_of(rows: &Vec<Subscriber>) -> (emails: Vec<String>)
    ensures
        emails.deep_view() == confirmed_emails(views(rows@)),
{
    let mut emails: Vec<String> = Vec::new();
    let mut i: usize = 0;
    while i < rows.len()
        invariant
            0 <= i <= rows.len(),
            emails.deep_view() == confirmed_emails(views(rows@).take(i as int)),
        decreases rows.len() - i,
    {
        proof {
            views(rows@).lemma_filter_map_take_succ(
                |row: SubscriberView| recipient(row),
                i as int,
            );
        }
        if rows[i].status == SubscriberStatus::Confirmed {
            let ghost before = emails.deep_view();
            emails.push(rows[i].email.clone());
            assert(emails.deep_view() == before + seq![rows[i as int].email@]);
        }
        i += 1;
    }
    assert(views(rows@).take(rows.len() as int) == views(rows@));
    emails
}

/// The position of the subscriber that has the confirmation token `token`,
/// if there is one.
fn position_of(rows: &Vec<Subscriber>, token: &String) -> (found: Option<usize>)
    ensures
        found is Some <==> holds_token(views(rows@), token@),
        found matches Some(i) ==> i < rows.len() && views(rows@)[i as int].confirmation_token
            == token@,
{
    let mut i: usize = 0;
    while i < rows.len()
        invariant
            0 <= i <= rows.len(),
            forall|j: int|
                0 <= j < i ==> (#[trigger] views(rows@)[j]).confirmation_token != token@,
        decreases rows.len() - i,
    {
        if rows[i].confirmation_token == *token {
            assert(views(rows@)[i as int].confirmation_token == token@);
            return Some(i);
        }
        i += 1;
    }
    None
}

/// Presenting a token leaves the registry's guarantees in place.
pub proof fn lemma_confirm_keeps_well_formed(rows: Seq<SubscriberView>, token: Seq<char>)
    requires
        well_formed(rows),
    ensures
        well_formed(confirm_token(rows, token)),
{
    let after = confirm_token(rows, token);
    assert forall|i: int, j: int| 0 <= i < j < after.len() implies (
    #[trigger] after[i]).confirmation_token != (#[trigger] after[j]).confirmation_token by {
        assert(rows[i].confirmation_token != rows[j].confirmation_token);
    }
    assert forall|i: int| 0 <= i < after.len() implies (#[trigger] after[i]).id == i by {
        assert(rows[i].id == i);
    }
    assert forall|i: int| 0 <= i < after.len() implies name_is_valid((#[trigger] after[i]).name)
        && email_syntax_ok(after[i].email) by {
        assert(name_is_valid(rows[i].name));
    }
}

/// Inserting a subscriber that met the rules for submissions, with a token
/// that no subscriber has yet, leaves the registry's guarantees in place.
pub proof fn lemma_insert_keeps_well_formed(
    rows: Seq<SubscriberView>,
    subscriber: NewSubscriberView,
    conf_token: Seq<char>,
    subscribed_at: i64,
)
    requires
        well_formed(rows),
        !holds_token(rows, conf_token),
        name_is_valid(subscriber.name),
        email_syntax_ok(subscriber.email),
        rows.len() <= u128::MAX,
    ensures
        well_formed(insert_pending(rows, subscriber, conf_token, subscribed_at)),
{
    let after = insert_pending(rows, subscriber, conf_token, subscribed_at);
    assert forall|i: int, j: int| 0 <= i < j < after.len() implies (
    #[trigger] after[i]).confirmation_token != (#[trigger] after[j]).confirmation_token by {
        if j < rows.len() {
            assert(rows[i].confirmation_token != rows[j].confirmation_token);
        } else {
            assert(rows[i].confirmation_token != conf_token);
        }
    }
    assert forall|i: int| 0 <= i < after.len() implies (#[trigger] after[i]).id == i by {
        if i < rows.len() {
            assert(rows[i].id == i);
        }
    }
    assert forall|i: int| 0 <= i < after.len() implies name_is_valid((#[trigger] after[i]).name)
        && email_syntax_ok(after[i].email) by {
        if i < rows.len() {
            assert(name_is_valid(rows[i].name));
        }
    }
}

/// Inserts `subscriber` as pending, with the confirmation token `conf_token`
/// and the time of the subscription. A token that a subscriber has already
/// is refused, and the registry stays as it was. The result is the
/// identifier of the new subscriber.
pub fn insert_subscriber(
    subscriber: &NewSubscriber,
    conf_token: &str,
    subscribed_at: i64,
    store: &mut Subscriptions,
) -> (r: Result<u128, StoreError>)
    ensures
        r is Ok <==> !holds_token(old(store)@, conf_token@),
        r matches Ok(id) ==> id == old(store)@.len() && final(store)@ == insert_pending(
            old(store)@,
            subscriber@,
            conf_token@,
            subscribed_at,
        ),
        r matches Err(e) ==> e == StoreError::UniqueViolation && final(store)@ == old(store)@,
{
    let token = conf_token.to_owned();
    if position_of(&store.rows, &token).is_some() {
        return Err(StoreError::UniqueViolation);
    }
    let mut rows = store.take();
    let id: u128 = rows.len() as u128;
    let row = Subscriber {
        id,
        name: subscriber.name().clone(),
        email: subscriber.email().clone(),
        confirmation_token: token,
        status: SubscriberStatus::PendingConfirmation,
        subscribed_at,
    };
    let ghost before = views(rows@);
    rows.push(row);
    proof {
        assert(views(rows@) == before.push(row@));
        lemma_insert_keeps_well_formed(before, subscriber@, conf_token@, subscribed_at);
    }
    *store = Subscriptions { rows };
    Ok(id)
}

/// Presents the confirmation token `token`: the subscriber that has it is
/// confirmed from now on, whatever its status was, and nothing else changes.
/// The result says whether a subscriber has the token.
pub fn confirm_subscriber(token: &str, store: &mut Subscriptions) -> (matched: bool)
    ensures
        matched == holds_token(old(store)@, token@),
        final(store)@ == confirm_token(old(store)@, token@),
{
    let wanted = token.to_owned();
    let mut rows = store.take();
    let ghost before = views(rows@);
    let matched = match position_of(&rows, &wanted) {
        Some(i) => {
            rows[i].status = rows[i].status.confirm();
            proof {
                let after = views(rows@);
                assert forall|j: int| 0 <= j < after.len() implies #[trigger] after[j]
                    == confirmed_by(before[j], token@) by {
                    let found = before[i as int];
                    if j < i {
                        assert(before[j].confirmation_token != found.confirmation_token);
                    } else if j > i {
                        assert(found.confirmation_token != before[j].confirmation_token);
                    }
                }
                assert(after == confirm_token(before, token@));
            }
            true
        },
        None => {
            assert(views(rows@) == confirm_token(before, token@));
            false
        },
    };
    proof {
        lemma_confirm_keeps_well_formed(before, token@);
    }
    *store = Subscriptions { rows };
    matched
}

/// The e-mail addresses to which a newsletter issue goes: those of the
/// confirmed subscribers.
pub fn get_confirmed_subscriber_emails(store: &Subscriptions) -> (emails: Vec<String>)
    ensures
        emails.deep_view() == confirmed_emails(store@),
{
    confirmed_emails_of(&store.rows)
}

} // verus!
