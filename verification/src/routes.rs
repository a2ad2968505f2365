//! The three workflows of the service: a submission, a confirmation, and a
//! newsletter issue.

use vstd::prelude::*;

pub mod newsletters;
pub mod subscriptions;
pub mod subscriptions_confirm;

pub use newsletters::post_newsletter;
pub use subscriptions::subscribe;
pub use subscriptions_confirm::confirm;

verus! {

/// The service that failed a workflow.
#[derive(Clone, Copy, Debug, PartialEq, Eq, Structural)]
pub enum Failure {
    /// The store did not do what it was asked.
    Storage,
    /// The e-mail transport did not deliver.
    Transport,
}

} // verus!
