//! Signup and login, and what they rest on.

pub mod auth;
pub mod credentials;
pub mod password;
