//! Tracking of shapes from frame to frame.

pub mod assignment;
pub mod bytetracker;
pub mod laws;
pub mod strack;
