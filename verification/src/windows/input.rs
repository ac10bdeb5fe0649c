//! Pressing and releasing keys.

use bit_vec::BitVec;
use vstd::prelude::*;

use crate::bridge::KeyKind;
use crate::windows::bits;
use crate::windows::keys::{
    law_codes_fit_the_table, to_virtual_key, try_from_virtual_key, virtual_key, VK_INSERT,
};
use crate::windows::{Error, InputKind};

verus! {

/// How many key codes there are.
pub const KEY_CODES: usize = 256;

/// The first key code that is polled.
pub const FIRST_POLLED: u16 = 0x08;

/// The key code after the last one that is polled.
pub const END_POLLED: u16 = 0xC0;

/// An extended key.
pub const KEYEVENTF_EXTENDEDKEY: u32 = 1;

/// A key that is released.
pub const KEYEVENTF_KEYUP: u32 = 2;

/// Names a window.
#[derive(Clone, Copy, PartialEq, Eq, Debug, Structural)]
pub struct Handle {
    pub raw: i64,
}

#[derive(Clone, Copy, PartialEq, Eq, Debug, Structural)]
pub struct WindowsInputReceiver {
    pub handle: Handle,
    pub input_kind: InputKind,
}

impl WindowsInputReceiver {
    pub fn new(handle: Handle, input_kind: InputKind) -> (res: Self)
        ensures
            res == (WindowsInputReceiver { handle, input_kind }),
    {
        WindowsInputReceiver { handle, input_kind }
    }
}

/// Whether a key is held, by the state that Windows reports for it.
pub open spec fn reported_down(state: u16) -> bool {
    state & 0x8000 != 0
}

#[derive(Clone, Copy, PartialEq, Eq, Debug, Structural)]
pub enum KeyState {
    Pressed,
    Released,
}

pub fn key_state(state: u16) -> (res: KeyState)
    ensures
        res == if reported_down(state) {
            KeyState::Pressed
        } else {
            KeyState::Released
        },
{
    if state & 0x8000 != 0 {
        KeyState::Pressed
    } else {
        KeyState::Released
    }
}

/// Which keys were held when they were polled last.
#[derive(Debug)]
pub struct KeyPoll {
    pub held: Vec<bool>,
}

/// The keys among the codes from the first polled one up to `end` that were pressed since, in the
/// order of their codes.
pub open spec fn newly_pressed(held: Seq<bool>, states: Seq<u16>, end: int) -> Seq<KeyKind>
    decreases end,
{
    if end <= FIRST_POLLED {
        seq![]
    } else {
        let before = newly_pressed(held, states, end - 1);
        let code = (end - 1) as u16;
        if reported_down(states[end - 1]) && !held[end - 1] && crate::windows::keys::is_known(
            code,
        ) {
            before.push(choose|kind: KeyKind| #[trigger] virtual_key(kind) == code)
        } else {
            before
        }
    }
}

impl KeyPoll {
    /// There is one flag for each code.
    pub open spec fn wf(&self) -> bool {
        self.held@.len() == KEY_CODES
    }

    pub fn new() -> (res: Self)
        ensures
            res.wf(),
            forall|i: int| 0 <= i < KEY_CODES ==> !#[trigger] res.held@[i],
    {
        let mut held: Vec<bool> = Vec::new();
        let mut i: usize = 0;
        while i < KEY_CODES
            invariant
                i <= KEY_CODES,
                held@.len() == i,
                forall|j: int| 0 <= j < i ==> !#[trigger] held@[j],
            decreases KEY_CODES - i,
        {
            held.push(false);
            i = i + 1;
        }
        KeyPoll { held }
    }

    /// Looks at the states of all keys and returns those that were pressed since the last time.
    pub fn poll(&mut self, states: &Vec<u16>) -> (res: Vec<KeyKind>)
        requires
            old(self).wf(),
            states@.len() == KEY_CODES,
        ensures
            final(self).wf(),
            res@ == newly_pressed(old(self).held@, states@, END_POLLED as int),
            forall|i: int|
                0 <= i < KEY_CODES ==> #[trigger] final(self).held@[i] == if FIRST_POLLED <= i
                    < END_POLLED {
                    reported_down(states@[i])
                } else {
                    old(self).held@[i]
                },
    {
        let ghost before = self.held@;
        let mut pressed: Vec<KeyKind> = Vec::new();
        let mut code: u16 = FIRST_POLLED;
        while code < END_POLLED
            invariant
                FIRST_POLLED <= code <= END_POLLED,
                states@.len() == KEY_CODES,
                before.len() == KEY_CODES,
                self.held@.len() == KEY_CODES,
                pressed@ == newly_pressed(before, states@, code as int),
                forall|i: int|
                    0 <= i < KEY_CODES ==> #[trigger] self.held@[i] == if FIRST_POLLED <= i < code
                    {
                        reported_down(states@[i])
                    } else {
                        before[i]
                    },
            decreases END_POLLED - code,
        {
            let at: usize = code as usize;
            let down: bool = states[at] & 0x8000 != 0;
            let was_down: bool = self.held[at];
            if down && !was_down {
                if let Ok(kind) = try_from_virtual_key(code) {
                    proof {
                        let found = choose|kind: KeyKind| #[trigger] virtual_key(kind) == code;
                        crate::windows::keys::law_codes_tell_keys_apart(kind, found);
                    }
                    pressed.push(kind);
                }
            }
            self.held.set(at, down);
            code = code + 1;
        }
        pressed
    }
}

/// A key that is held is reported once.
pub proof fn law_held_key_is_reported_once(held: Seq<bool>, states: Seq<u16>, end: int)
    requires
        forall|i: int| 0 <= i < end ==> #[trigger] held[i] == reported_down(states[i]),
    ensures
        newly_pressed(held, states, end).len() == 0,
    decreases end,
{
    if end > FIRST_POLLED {
        law_held_key_is_reported_once(held, states, end - 1);
        assert(held[end - 1] == reported_down(states[end - 1]));
    }
}

#[derive(Clone, Copy, PartialEq, Eq, Debug, Structural)]
pub enum InputKeyStroke {
    Up,
    Down,
    DownRepeatable,
}

/// An input of the keyboard as it is handed to Windows.
#[derive(Clone, Copy, PartialEq, Eq, Debug, Structural)]
pub struct KeyboardInput {
    pub code: u16,
    pub scan_code: u16,
    pub flags: u32,
}

/// What is known of the window that is to receive an input.
#[derive(Clone, Copy, PartialEq, Eq, Debug, Structural)]
pub struct Target {
    /// Whether the window is there at all.
    pub found: bool,
    /// Whether it can receive inputs now.
    pub foreground: bool,
    /// What Windows maps the key to.
    pub mapped: u16,
}

/// The scan code of a key and whether it is an extended one.
pub open spec fn scan_code(code: u16, mapped: u16) -> (u16, bool) {
    (mapped & 0xFF, code == VK_INSERT || mapped & 0xFF00 != 0)
}

pub fn to_scan_code(code: u16, mapped: u16) -> (res: (u16, bool))
    ensures
        res == scan_code(code, mapped),
{
    (mapped & 0xFF, code == VK_INSERT || mapped & 0xFF00 != 0)
}

/// The input that presses or releases a key.
pub open spec fn keyboard_input(kind: KeyKind, mapped: u16, is_down: bool) -> KeyboardInput {
    let (scan_code, is_extended) = scan_code(virtual_key(kind), mapped);
    KeyboardInput {
        code: virtual_key(kind),
        scan_code,
        flags: ((if is_extended {
            KEYEVENTF_EXTENDEDKEY
        } else {
            0
        }) + (if is_down {
            0
        } else {
            KEYEVENTF_KEYUP
        })) as u32,
    }
}

fn to_input(code: u16, scan_code: u16, is_extended: bool, is_down: bool) -> (res: KeyboardInput)
    ensures
        res == (KeyboardInput {
            code,
            scan_code,
            flags: ((if is_extended {
                KEYEVENTF_EXTENDEDKEY
            } else {
                0
            }) + (if is_down {
                0
            } else {
                KEYEVENTF_KEYUP
            })) as u32,
        }),
{
    let extended: u32 = if is_extended {
        KEYEVENTF_EXTENDEDKEY
    } else {
        0
    };
    let up: u32 = if is_down {
        0
    } else {
        KEYEVENTF_KEYUP
    };
    KeyboardInput { code, scan_code, flags: extended + up }
}

/// Which keys are held down by inputs that were sent, and which are being sent.
#[derive(Debug)]
pub struct WindowsInput {
    pub key_down: BitVec,
    pub key_sending: BitVec,
}

/// What inputs that were sent hold down.
#[verifier::ext_equal]
pub struct KeysView {
    pub down: Seq<bool>,
    pub sending: Seq<bool>,
}

impl View for WindowsInput {
    type V = KeysView;

    open spec fn view(&self) -> KeysView {
        KeysView { down: bits::bits(self.key_down), sending: bits::bits(self.key_sending) }
    }
}

impl KeysView {
    /// There is one flag for each code.
    pub open spec fn wf(self) -> bool {
        self.down.len() == KEY_CODES && self.sending.len() == KEY_CODES
    }

    pub open spec fn is_down(self, kind: KeyKind) -> bool {
        self.down[virtual_key(kind) as int]
    }

    pub open spec fn is_sending(self, kind: KeyKind) -> bool {
        self.sending[virtual_key(kind) as int]
    }

    pub open spec fn with_down(self, kind: KeyKind, down: bool) -> Self {
        KeysView { down: self.down.update(virtual_key(kind) as int, down), ..self }
    }

    pub open spec fn with_sending(self, kind: KeyKind, sending: bool) -> Self {
        KeysView { sending: self.sending.update(virtual_key(kind) as int, sending), ..self }
    }

    /// Why a stroke cannot be sent, if it cannot. A key that is held is pressed again only by a
    /// stroke that may be repeated, and one that is not held is not released.
    pub open spec fn refusal(self, kind: KeyKind, stroke: InputKeyStroke, target: Target) -> Option<
        Error,
    > {
        if !target.found {
            Some(Error::WindowNotFound)
        } else if !(stroke is Up) && !target.foreground {
            Some(Error::KeyNotSent)
        } else if self.is_down(kind) && stroke is Down {
            Some(Error::KeyNotSent)
        } else if !self.is_down(kind) && stroke is Up {
            Some(Error::KeyNotSent)
        } else {
            None
        }
    }

    /// The keys after a stroke.
    pub open spec fn stroked(self, kind: KeyKind, stroke: InputKeyStroke, target: Target) -> Self {
        if self.refusal(kind, stroke, target) is Some {
            self
        } else {
            self.with_down(kind, !(stroke is Up))
        }
    }
}

impl WindowsInput {
    pub fn new() -> (res: Self)
        ensures
            res@.wf(),
            forall|i: int| 0 <= i < KEY_CODES ==> !#[trigger] res@.down[i],
            forall|i: int| 0 <= i < KEY_CODES ==> !#[trigger] res@.sending[i],
            forall|kind: KeyKind| !#[trigger] res@.is_down(kind),
            forall|kind: KeyKind| !#[trigger] res@.is_sending(kind),
    {
        let res: WindowsInput = WindowsInput {
            key_down: bits::from_elem(KEY_CODES, false),
            key_sending: bits::from_elem(KEY_CODES, false),
        };
        proof {
            assert forall|kind: KeyKind| !#[trigger] res@.is_down(kind) by {
                law_codes_fit_the_table(kind);
            }
            assert forall|kind: KeyKind| !#[trigger] res@.is_sending(kind) by {
                law_codes_fit_the_table(kind);
            }
        }
        res
    }

    /// Whether no key is held down.
    pub fn is_all_keys_cleared(&self) -> (res: bool)
        requires
            self@.wf(),
        ensures
            res == forall|i: int| 0 <= i < KEY_CODES ==> !#[trigger] self@.down[i],
    {
        !bits::any(&self.key_down)
    }

    /// The input to be sent for a stroke, or why none is.
    fn send_input(&mut self, kind: KeyKind, stroke: InputKeyStroke, target: Target) -> (res: Result<
        KeyboardInput,
        Error,
    >)
        requires
            old(self)@.wf(),
        ensures
            final(self)@ == old(self)@.stroked(kind, stroke, target),
            final(self)@.wf(),
            match res {
                Ok(input) => old(self)@.refusal(kind, stroke, target) is None && input
                    == keyboard_input(kind, target.mapped, !(stroke is Up)),
                Err(error) => old(self)@.refusal(kind, stroke, target) == Some(error),
            },
    {
        proof {
            law_codes_fit_the_table(kind);
        }
        if !target.found {
            return Err(Error::WindowNotFound);
        }
        let is_down: bool = matches!(
            stroke,
            InputKeyStroke::Down | InputKeyStroke::DownRepeatable
        );
        if is_down && !target.foreground {
            return Err(Error::KeyNotSent);
        }
        let code: u16 = to_virtual_key(kind);
        let (scan_code, is_extended): (u16, bool) = to_scan_code(code, target.mapped);
        let was_key_down: bool = match bits::get(&self.key_down, code as usize) {
            Some(down) => down,
            None => false,
        };
        if is_down && was_key_down {
            if !matches!(stroke, InputKeyStroke::DownRepeatable) {
                return Err(Error::KeyNotSent);
            }
            assert(self@.down.update(code as int, true) =~= self@.down);
        } else if !is_down && !was_key_down {
            return Err(Error::KeyNotSent);
        } else {
            bits::set(&mut self.key_down, code as usize, is_down);
        }
        Ok(to_input(code, scan_code, is_extended, is_down))
    }

    pub fn send_key_up(&mut self, kind: KeyKind, target: Target) -> (res: Result<
        KeyboardInput,
        Error,
    >)
        requires
            old(self)@.wf(),
        ensures
            final(self)@ == old(self)@.stroked(kind, InputKeyStroke::Up, target),
            final(self)@.wf(),
            match res {
                Ok(input) => old(self)@.refusal(kind, InputKeyStroke::Up, target) is None && input
                    == keyboard_input(kind, target.mapped, false),
                Err(error) => old(self)@.refusal(kind, InputKeyStroke::Up, target) == Some(error),
            },
    {
        self.send_input(kind, InputKeyStroke::Up, target)
    }

    pub fn send_key_down(&mut self, kind: KeyKind, repeatable: bool, target: Target) -> (res: Result<
        KeyboardInput,
        Error,
    >)
        requires
            old(self)@.wf(),
        ensures
            ({
                let stroke = if repeatable {
                    InputKeyStroke::DownRepeatable
                } else {
                    InputKeyStroke::Down
                };
                &&& final(self)@ == old(self)@.stroked(kind, stroke, target)
                &&& match res {
                    Ok(input) => old(self)@.refusal(kind, stroke, target) is None && input
                        == keyboard_input(kind, target.mapped, true),
                    Err(error) => old(self)@.refusal(kind, stroke, target) == Some(error),
                }
            }),
            final(self)@.wf(),
    {
        let stroke: InputKeyStroke = if repeatable {
            InputKeyStroke::DownRepeatable
        } else {
            InputKeyStroke::Down
        };
        self.send_input(kind, stroke, target)
    }

    /// Whether a key was pressed and is yet to be released.
    pub fn is_key_sending(&self, kind: KeyKind) -> (res: bool)
        requires
            self@.wf(),
        ensures
            res == self@.is_sending(kind),
    {
        proof {
            law_codes_fit_the_table(kind);
        }
        match bits::get(&self.key_sending, to_virtual_key(kind) as usize) {
            Some(sending) => sending,
            None => false,
        }
    }

    pub fn set_key_sending(&mut self, kind: KeyKind, sending: bool)
        requires
            old(self)@.wf(),
        ensures
            final(self)@ == old(self)@.with_sending(kind, sending),
            final(self)@.wf(),
    {
        proof {
            law_codes_fit_the_table(kind);
        }
        bits::set(&mut self.key_sending, to_virtual_key(kind) as usize, sending);
    }

    /// Begins to press and release a key: the input that presses it, or why it is not pressed. A
    /// key is not pressed again as long as it is yet to be released.
    ///
    /// Once the input was sent, [`Self::set_key_sending`] is due, and [`Self::end_key`] when the
    /// key has been held for long enough.
    pub fn send_key(&mut self, kind: KeyKind, target: Target) -> (res: Result<KeyboardInput, Error>)
        requires
            old(self)@.wf(),
        ensures
            if old(self)@.is_sending(kind) {
                &&& final(self)@ == old(self)@
                &&& res == Err::<KeyboardInput, Error>(Error::KeyNotSent)
            } else {
                &&& final(self)@ == old(self)@.stroked(kind, InputKeyStroke::Down, target)
                &&& match res {
                    Ok(input) => old(self)@.refusal(kind, InputKeyStroke::Down, target) is None
                        && input == keyboard_input(kind, target.mapped, true),
                    Err(error) => old(self)@.refusal(kind, InputKeyStroke::Down, target) == Some(
                        error,
                    ),
                }
            },
            final(self)@.wf(),
    {
        if self.is_key_sending(kind) {
            return Err(Error::KeyNotSent);
        }
        self.send_input(kind, InputKeyStroke::Down, target)
    }

    /// Ends pressing and releasing a key: the input that releases it, if it is still held. Either
    /// way it can be pressed again.
    pub fn end_key(&mut self, kind: KeyKind, target: Target) -> (res: Option<KeyboardInput>)
        requires
            old(self)@.wf(),
        ensures
            final(self)@ == old(self)@.stroked(kind, InputKeyStroke::Up, target).with_sending(
                kind,
                false,
            ),
            res == if old(self)@.refusal(kind, InputKeyStroke::Up, target) is None {
                Some(keyboard_input(kind, target.mapped, false))
            } else {
                None
            },
            final(self)@.wf(),
    {
        let input: Option<KeyboardInput> = match self.send_input(
            kind,
            InputKeyStroke::Up,
            target,
        ) {
            Ok(input) => Some(input),
            Err(_) => None,
        };
        self.set_key_sending(kind, false);
        input
    }
}

/// A key that was pressed can be released, whatever window is in front, and is not held then.
pub proof fn law_pressed_key_can_be_released(keys: KeysView, kind: KeyKind, target: Target, later: Target)
    requires
        keys.wf(),
        keys.refusal(kind, InputKeyStroke::Down, target) is None,
        later.found,
    ensures
        ({
            let pressed = keys.stroked(kind, InputKeyStroke::Down, target);
            let released = pressed.stroked(kind, InputKeyStroke::Up, later);
            &&& pressed.is_down(kind)
            &&& pressed.refusal(kind, InputKeyStroke::Up, later) is None
            &&& released =~= keys
        }),
{
    law_codes_fit_the_table(kind);
}

/// A stroke of one key never changes whether another one is held.
pub proof fn law_strokes_do_not_affect_other_keys(
    keys: KeysView,
    kind: KeyKind,
    other: KeyKind,
    stroke: InputKeyStroke,
    target: Target,
)
    requires
        keys.wf(),
        kind != other,
    ensures
        keys.stroked(kind, stroke, target).is_down(other) == keys.is_down(other),
{
    law_codes_fit_the_table(kind);
    law_codes_fit_the_table(other);
    if virtual_key(kind) == virtual_key(other) {
        crate::windows::keys::law_codes_tell_keys_apart(kind, other);
    }
}

/// A key is reported to be held in the highest one of the sixteen bits of its state.
pub proof fn law_highest_bit_tells_held_keys(state: u16)
    ensures
        reported_down(state) <==> state >= 0x8000,
{
    assert(state & 0x8000 != 0 <==> state >= 0x8000) by (bit_vector);
}

/// The keys that were pressed since are exactly those that are held now and were not held before,
/// among the codes that are polled. Each of them comes once.
pub proof fn law_pressed_keys_are_reported(
    held: Seq<bool>,
    states: Seq<u16>,
    end: int,
    kind: KeyKind,
)
    requires
        8 <= end <= 256,
    ensures
        newly_pressed(held, states, end).contains(kind) <==> {
            let code = virtual_key(kind) as int;
            8 <= code < end && states[code] >= 0x8000 && !held[code]
        },
        newly_pressed(held, states, end).no_duplicates(),
        forall|i: int|
            0 <= i < newly_pressed(held, states, end).len() ==> virtual_key(
                #[trigger] newly_pressed(held, states, end)[i],
            ) < end,
    decreases end,
{
    if end > 8 {
        law_pressed_keys_are_reported(held, states, end - 1, kind);
        law_highest_bit_tells_held_keys(states[end - 1]);
        let before = newly_pressed(held, states, end - 1);
        let after = newly_pressed(held, states, end);
        let code = (end - 1) as u16;
        if reported_down(states[end - 1]) && !held[end - 1] && crate::windows::keys::is_known(
            code,
        ) {
            let found = choose|kind: KeyKind| #[trigger] virtual_key(kind) == code;
            assert(after == before.push(found));
            assert(after.last() == found);
            if virtual_key(kind) == code {
                crate::windows::keys::law_codes_tell_keys_apart(kind, found);
                assert(after[before.len() as int] == kind);
            }
            if before.contains(kind) {
                let i = choose|i: int| 0 <= i < before.len() && before[i] == kind;
                assert(after[i] == kind);
            }
            if after.contains(kind) {
                let i = choose|i: int| 0 <= i < after.len() && after[i] == kind;
                if i < before.len() {
                    assert(before[i] == kind);
                }
            }
        } else if virtual_key(kind) == code {
            assert(crate::windows::keys::is_known(code));
        }
    }
}

/// The scan code is the lower byte of what a key is mapped to. The key is an extended one where the
/// upper byte is not zero, and so is the insert key in any case.
pub proof fn law_scan_code_is_the_lower_byte(code: u16, mapped: u16)
    ensures
        scan_code(code, mapped).0 == mapped % 256,
        scan_code(code, mapped).1 <==> code == 45 || mapped >= 256,
{
    assert(mapped & 0xFF == mapped % 256) by (bit_vector);
    assert(mapped & 0xFF00 != 0 <==> mapped >= 256) by (bit_vector);
}

/// An input names its key and tells by its flags whether the key is an extended one and whether it is
/// released.
pub proof fn law_flags_tell_how_a_key_is_used(kind: KeyKind, mapped: u16, is_down: bool)
    ensures
        ({
            let input = keyboard_input(kind, mapped, is_down);
            &&& input.code == virtual_key(kind)
            &&& input.scan_code == mapped % 256
            &&& input.flags <= 3
            &&& input.flags % 2 == 1 <==> virtual_key(kind) == 45 || mapped >= 256
            &&& input.flags >= 2 <==> !is_down
        }),
{
    law_scan_code_is_the_lower_byte(virtual_key(kind), mapped);
}

/// A stroke is sent just when the window is there and the stroke makes sense: a key that is held is
/// released, whatever window is in front, and one is pressed only in front, and again only where that
/// may be repeated. After that the key is held or not, and nothing else has changed.
pub proof fn law_strokes_are_sent_where_they_make_sense(
    keys: KeysView,
    kind: KeyKind,
    stroke: InputKeyStroke,
    target: Target,
)
    requires
        keys.wf(),
    ensures
        ({
            let held = keys.down[virtual_key(kind) as int];
            let refusal = keys.refusal(kind, stroke, target);
            let after = keys.stroked(kind, stroke, target);
            &&& refusal is None <==> target.found && match stroke {
                InputKeyStroke::Up => held,
                InputKeyStroke::Down => target.foreground && !held,
                InputKeyStroke::DownRepeatable => target.foreground,
            }
            &&& refusal == Some(Error::WindowNotFound) <==> !target.found
            &&& target.found && refusal is Some ==> refusal == Some(Error::KeyNotSent)
            &&& refusal is Some ==> after == keys
            &&& refusal is None ==> after.down[virtual_key(kind) as int] == !(stroke is Up)
            &&& after.sending == keys.sending
            &&& keys.with_sending(kind, held).down == keys.down
            &&& forall|sending: bool| #[trigger]
                keys.with_sending(kind, sending).is_sending(kind) == sending
        }),
{
    law_codes_fit_the_table(kind);
}

/// All codes of one byte are kept, and those of the keys on a keyboard are polled.
pub proof fn law_codes_of_one_byte_are_kept()
    ensures
        KEY_CODES == 0x100,
        FIRST_POLLED == virtual_key(KeyKind::Backspace),
        END_POLLED == virtual_key(KeyKind::Tilde),
{
}

} // verus!
