//! The data of the mailing list: what a visitor submits, the registry of
//! subscribers and the registry of operators.

use vstd::prelude::*;

pub mod subscriber;
pub mod subscribers;
pub mod users;

verus! {

/// Why a registry refused an insertion.
#[derive(Clone, Copy, Debug, PartialEq, Eq, Structural)]
pub enum StoreError {
    /// What has to be unique belongs to an entry already: the confirmation
    /// token of a subscriber, the name of an operator.
    UniqueViolation,
    /// No identifier is left for a new entry.
    OutOfRange,
}

} // verus!
