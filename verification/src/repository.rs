//! The account store, as the services see it.

pub mod user;
