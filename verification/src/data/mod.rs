//! The airports and kinds of cargo that a game starts with.

pub mod airports;
pub mod cargo_types;
