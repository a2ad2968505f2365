//! The core of a double opt-in mailing list: validation of what a visitor
//! submits, the lifecycle of a subscription from pending to confirmed, the
//! credentials that come before a newsletter issue, and the delivery of an
//! issue to every confirmed subscriber.
//!
//! The store, the e-mail transport and the verifier of password hashes are
//! services outside this crate. A workflow that needs them is a small
//! machine: its state names the operation that the caller has to perform
//! next, and what came of that operation moves it on. The registries of
//! `domains` are a store in memory, for which the rules of the lifecycle are
//! proved.

pub mod auth;
pub mod configuration;
pub mod domains;
pub mod email_client;
pub mod routes;
