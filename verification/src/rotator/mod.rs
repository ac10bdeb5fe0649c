//! Rotation of the actions that the player carries out.

pub mod action;
pub mod conditions;
pub mod default_rotator;
pub mod due_laws;
pub mod laws;
pub mod mobbing;
pub mod model;
pub mod parts;
pub mod table;
pub mod turn_laws;
