//! Accounts and notes: credential policy, password hashing, signed identity
//! tokens and the decisions of the request handlers, with machine-checked
//! contracts.

pub mod client;
pub mod decimal;
pub mod domain;
pub mod handlers;
pub mod middleware;
pub mod repository;
pub mod service;
pub mod text;
