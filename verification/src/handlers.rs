//! What the request handlers decide: which answer goes out for which outcome.
//! Routing, the wire format and the waiting for a store are the caller's.

pub mod auth;
pub mod model;
pub mod notes;
