//! The persisted entities.

pub mod model;
pub mod note;
