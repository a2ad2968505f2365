//! A confirmation: the token of the confirmation link makes the subscriber
//! that has it confirmed.
//!
//! A token that no subscriber has is answered as not authenticated, and so is
//! a store that failed: the answer tells nothing about which tokens exist.

use crate::auth::AuthenticationError;
use crate::domains::subscribers::{
    confirm_subscriber, confirm_token, holds_token, lemma_confirm_is_idempotent,
    lemma_unknown_token_changes_nothing, SubscriberStatus, SubscriberView, Subscriptions,
};
use vstd::prelude::*;

verus! {

/// What the confirmation link carries.
#[derive(Debug)]
pub struct Params {
    pub token: String,
}

/// The answer to a confirmation, given how many subscribers the store found
/// with the token, or `None` where the store failed: success if and only if
/// it found one.
pub open spec fn answer(updated: Option<u64>) -> Result<(), AuthenticationError> {
    match updated {
        Some(found) => if found > 0 {
            Ok(())
        } else {
            Err(AuthenticationError)
        },
        None => Err(AuthenticationError),
    }
}

/// The registry after the confirmation with `token`, and the answer.
pub open spec fn confirmation(rows: Seq<SubscriberView>, token: Seq<char>) -> (
    Seq<SubscriberView>,
    Result<(), AuthenticationError>,
) {
    (confirm_token(rows, token), answer(Some(if holds_token(rows, token) { 1u64 } else { 0u64 })))
}

/// Answers a confirmation that the store has carried out. `updated` is the
/// number of subscribers that it found with the token, or `None` where it
/// failed.
pub fn respond(updated: Option<u64>) -> (r: Result<(), AuthenticationError>)
    ensures
        r == answer(updated),
{
    match updated {
        Some(found) => if found > 0 {
            Ok(())
        } else {
            Err(AuthenticationError)
        },
        None => Err(AuthenticationError),
    }
}

/// Confirms the subscriber of `store` that has the token of `params`,
/// whatever its status was. Where no subscriber has the token, nothing
/// changes and the request is not authenticated.
pub fn confirm(params: &Params, store: &mut Subscriptions) -> (r: Result<(), AuthenticationError>)
    ensures
        (final(store)@, r) == confirmation(old(store)@, params.token@),
        r is Ok <==> holds_token(old(store)@, params.token@),
{
    let matched = confirm_subscriber(params.token.as_str(), store);
    respond(Some(if matched { 1 } else { 0 }))
}

/// Confirming twice with the token of a subscriber succeeds both times: the
/// subscriber is confirmed after the first time, and the second time changes
/// nothing.
pub proof fn lemma_confirmation_is_idempotent(rows: Seq<SubscriberView>, token: Seq<char>)
    requires
        holds_token(rows, token),
    ensures
        ({
            let (once, first) = confirmation(rows, token);
            let (twice, second) = confirmation(once, token);
            &&& first is Ok
            &&& second is Ok
            &&& twice == once
            &&& forall|i: int|
                0 <= i < rows.len() && (#[trigger] rows[i]).confirmation_token == token
                    ==> once[i].status == SubscriberStatus::Confirmed
        }),
{
    lemma_confirm_is_idempotent(rows, token);
}

/// A token that no subscriber has is answered as not authenticated and
/// changes no subscriber.
pub proof fn lemma_unknown_token_is_refused(rows: Seq<SubscriberView>, token: Seq<char>)
    requires
        !holds_token(rows, token),
    ensures
        confirmation(rows, token) == (rows, Err::<(), AuthenticationError>(AuthenticationError)),
{
    lemma_unknown_token_changes_nothing(rows, token);
}

} // verus!
