//! Core of a newsletter subscription service: validated subscriber identities,
//! the fallible conversion from raw form input to a validated aggregate, and
//! the persistence step that turns the aggregate into a stored record.

pub mod domain;
pub mod secret;
pub mod store;
pub mod subscriptions;
