//! Keys a user can bind, and the key settings used while mobbing.

use vstd::prelude::*;

use crate::models::actions::ActionKeyWith;

verus! {

/// A keyboard key that can be bound to something.
#[derive(Clone, Copy, PartialEq, Eq, Debug, Structural)]
pub enum KeyBinding {
    A,
    B,
    C,
    D,
    E,
    F,
    G,
    H,
    I,
    J,
    K,
    L,
    M,
    N,
    O,
    P,
    Q,
    R,
    S,
    T,
    U,
    V,
    W,
    X,
    Y,
    Z,
    Zero,
    One,
    Two,
    Three,
    Four,
    Five,
    Six,
    Seven,
    Eight,
    Nine,
    F1,
    F2,
    F3,
    F4,
    F5,
    F6,
    F7,
    F8,
    F9,
    F10,
    F11,
    F12,
    Up,
    Down,
    Left,
    Right,
    Home,
    End,
    PageUp,
    PageDown,
    Insert,
    Delete,
    Enter,
    Space,
    Tilde,
    Quote,
    Semicolon,
    Comma,
    Period,
    Slash,
    Esc,
    Shift,
    Ctrl,
    Alt,
    Backspace,
}

impl Default for KeyBinding {
    fn default() -> (key: Self)
        ensures
            key == KeyBinding::A,
    {
        KeyBinding::A
    }
}

/// A bound key together with whether the binding is in use.
#[derive(Clone, Copy, PartialEq, Eq, Debug, Structural)]
pub struct KeyBindingConfiguration {
    pub key: KeyBinding,
    pub enabled: bool,
}

impl Default for KeyBindingConfiguration {
    fn default() -> (config: Self)
        ensures
            config.key == KeyBinding::A,
            !config.enabled,
    {
        KeyBindingConfiguration { key: KeyBinding::default(), enabled: false }
    }
}

/// A key pressed in combination with another one, and when it is pressed.
#[derive(Clone, Copy, PartialEq, Eq, Debug, Structural)]
pub enum LinkKeyBinding {
    Unlinked,
    Before(KeyBinding),
    AtTheSame(KeyBinding),
    After(KeyBinding),
    Along(KeyBinding),
}

impl Default for LinkKeyBinding {
    fn default() -> (link: Self)
        ensures
            link == LinkKeyBinding::Unlinked,
    {
        LinkKeyBinding::Unlinked
    }
}

impl LinkKeyBinding {
    /// The linked key, if there is one.
    pub open spec fn linked(self) -> Option<KeyBinding> {
        match self {
            LinkKeyBinding::Unlinked => None,
            LinkKeyBinding::Before(key) => Some(key),
            LinkKeyBinding::AtTheSame(key) => Some(key),
            LinkKeyBinding::After(key) => Some(key),
            LinkKeyBinding::Along(key) => Some(key),
        }
    }

    /// Whether both link in the same way, whatever key they link.
    pub open spec fn same_timing(self, other: Self) -> bool {
        match self {
            LinkKeyBinding::Unlinked => other is Unlinked,
            LinkKeyBinding::Before(_) => other is Before,
            LinkKeyBinding::AtTheSame(_) => other is AtTheSame,
            LinkKeyBinding::After(_) => other is After,
            LinkKeyBinding::Along(_) => other is Along,
        }
    }

    pub fn key(&self) -> (key: Option<KeyBinding>)
        ensures
            key == self.linked(),
    {
        match self {
            LinkKeyBinding::Before(key)
            | LinkKeyBinding::AtTheSame(key)
            | LinkKeyBinding::After(key)
            | LinkKeyBinding::Along(key) => Some(*key),
            LinkKeyBinding::Unlinked => None,
        }
    }

    /// Replaces the linked key and keeps the timing.
    pub fn with_key(&self, key: KeyBinding) -> (link: Self)
        ensures
            self.same_timing(link),
            link.linked() == if *self is Unlinked { None } else { Some(key) },
    {
        match self {
            LinkKeyBinding::Before(_) => LinkKeyBinding::Before(key),
            LinkKeyBinding::AtTheSame(_) => LinkKeyBinding::AtTheSame(key),
            LinkKeyBinding::After(_) => LinkKeyBinding::After(key),
            LinkKeyBinding::Along(_) => LinkKeyBinding::Along(key),
            LinkKeyBinding::Unlinked => LinkKeyBinding::Unlinked,
        }
    }
}

/// A link is fixed by its timing and its key.
pub proof fn law_link_is_timing_and_key(a: LinkKeyBinding, b: LinkKeyBinding)
    requires
        a.same_timing(b),
        a.linked() == b.linked(),
    ensures
        a == b,
{
}

/// The key used for mobbing and how it is used.
#[derive(Clone, Copy, PartialEq, Eq, Debug, Structural)]
pub struct MobbingKey {
    pub key: KeyBinding,
    pub key_hold_millis: u64,
    pub link_key: LinkKeyBinding,
    pub count: u32,
    pub with: ActionKeyWith,
    pub wait_before_millis: u64,
    pub wait_before_millis_random_range: u64,
    pub wait_after_millis: u64,
    pub wait_after_millis_random_range: u64,
}

impl Default for MobbingKey {
    fn default() -> (key: Self)
        ensures
            key == (MobbingKey {
                key: KeyBinding::A,
                key_hold_millis: 0,
                link_key: LinkKeyBinding::Unlinked,
                count: 1,
                with: ActionKeyWith::Any,
                wait_before_millis: 0,
                wait_before_millis_random_range: 0,
                wait_after_millis: 0,
                wait_after_millis_random_range: 0,
            }),
    {
        MobbingKey {
            key: KeyBinding::default(),
            key_hold_millis: 0,
            link_key: LinkKeyBinding::Unlinked,
            count: count_default(),
            with: ActionKeyWith::default(),
            wait_before_millis: 0,
            wait_before_millis_random_range: 0,
            wait_after_millis: 0,
            wait_after_millis_random_range: 0,
        }
    }
}

/// How often a key is pressed where nothing else is configured.
pub fn count_default() -> (count: u32)
    ensures
        count == 1,
{
    1
}

/// Every link but none at all links a key, and it is the one that was given.
pub proof fn law_links_link_their_key(link: LinkKeyBinding, other: LinkKeyBinding, key: KeyBinding)
    ensures
        link.linked() is None <==> link is Unlinked,
        LinkKeyBinding::Before(key).linked() == Some(key),
        LinkKeyBinding::AtTheSame(key).linked() == Some(key),
        LinkKeyBinding::After(key).linked() == Some(key),
        LinkKeyBinding::Along(key).linked() == Some(key),
        link.same_timing(other) <==> (link is Unlinked == other is Unlinked && link is Before
            == other is Before && link is AtTheSame == other is AtTheSame && link is After
            == other is After && link is Along == other is Along),
{
}

} // verus!
