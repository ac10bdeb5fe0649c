//! Keys, the mouse and windows as Windows has them.

use vstd::prelude::*;

pub mod bits;
pub mod input;
pub mod keys;
pub mod mouse;
pub mod window;

verus! {

/// Why an input could not be sent or a window not be used.
#[derive(Clone, Copy, PartialEq, Eq, Debug, Structural)]
pub enum Error {
    WindowNotFound,
    WindowInvalidSize,
    KeyNotFound,
    KeyNotSent,
}

/// Which window receives inputs.
#[derive(Clone, Copy, PartialEq, Eq, Debug, Structural)]
pub enum InputKind {
    /// The window itself, as long as it is focused.
    Focused,
    /// Whatever window is focused on top of it.
    Foreground,
}

} // verus!
