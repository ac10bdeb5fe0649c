//! Inputs to be sent to the game.

use vstd::prelude::*;

use crate::models::keys::{KeyBinding, LinkKeyBinding};

verus! {

/// A key to send. Every bindable key can be sent and the other way around.
pub type KeyKind = KeyBinding;

/// A key to send along with another one.
pub type LinkKeyKind = LinkKeyBinding;

#[derive(Clone, Copy, PartialEq, Eq, Debug, Structural)]
pub enum MouseKind {
    Move,
    Click,
    Scroll,
}

/// One thing to do with the keyboard or the mouse, to be carried out in order.
#[derive(Clone, Copy, PartialEq, Eq, Debug, Structural)]
pub enum InputCommand {
    /// Press and release a key.
    Key(KeyKind),
    /// Press a key, which is released by itself after some milliseconds. What comes next does not
    /// wait for that.
    KeyFor(KeyKind, u64),
    /// Press a key and keep it down.
    KeyDown(KeyKind),
    /// Release a key.
    KeyUp(KeyKind),
    /// Use the mouse at the given point.
    Mouse(i32, i32, MouseKind),
    /// Do nothing for some milliseconds.
    Sleep(u64),
}

} // verus!
