//! Services between the user interface and the game loop.

pub mod debug;
pub mod input;
pub mod mediator;
