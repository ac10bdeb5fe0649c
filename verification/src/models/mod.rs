//! What a user configures and what is stored.

pub mod actions;
pub mod keys;
pub mod stored;
