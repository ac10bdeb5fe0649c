//! Results of detections that run in the background.

use vstd::prelude::*;

verus! {

/// What a background detection has to say in this tick.
#[derive(Clone, Copy, PartialEq, Eq, Debug, Structural)]
pub enum Update {
    /// It finished and this is the answer.
    Answer(bool),
    /// It finished without an answer.
    Failed,
    /// It is still running, or was not started.
    Pending,
}

} // verus!
