//! Identity tokens: the claim, the service that signs and checks tokens, and
//! the step that resolves a request's bearer token to an identity.

pub mod extractor;
pub mod model;
pub mod token;
