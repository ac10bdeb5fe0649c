//! The codes that Windows has for keys.

use vstd::prelude::*;

use crate::bridge::KeyKind;
use crate::windows::Error;

verus! {

/// The virtual key code of the insert key.
pub const VK_INSERT: u16 = 45;

/// The virtual key code of a key.
pub open spec fn virtual_key(kind: KeyKind) -> u16 {
    match kind {
        KeyKind::A => 65,
        KeyKind::B => 66,
        KeyKind::C => 67,
        KeyKind::D => 68,
        KeyKind::E => 69,
        KeyKind::F => 70,
        KeyKind::G => 71,
        KeyKind::H => 72,
        KeyKind::I => 73,
        KeyKind::J => 74,
        KeyKind::K => 75,
        KeyKind::L => 76,
        KeyKind::M => 77,
        KeyKind::N => 78,
        KeyKind::O => 79,
        KeyKind::P => 80,
        KeyKind::Q => 81,
        KeyKind::R => 82,
        KeyKind::S => 83,
        KeyKind::T => 84,
        KeyKind::U => 85,
        KeyKind::V => 86,
        KeyKind::W => 87,
        KeyKind::X => 88,
        KeyKind::Y => 89,
        KeyKind::Z => 90,
        KeyKind::Zero => 48,
        KeyKind::One => 49,
        KeyKind::Two => 50,
        KeyKind::Three => 51,
        KeyKind::Four => 52,
        KeyKind::Five => 53,
        KeyKind::Six => 54,
        KeyKind::Seven => 55,
        KeyKind::Eight => 56,
        KeyKind::Nine => 57,
        KeyKind::F1 => 112,
        KeyKind::F2 => 113,
        KeyKind::F3 => 114,
        KeyKind::F4 => 115,
        KeyKind::F5 => 116,
        KeyKind::F6 => 117,
        KeyKind::F7 => 118,
        KeyKind::F8 => 119,
        KeyKind::F9 => 120,
        KeyKind::F10 => 121,
        KeyKind::F11 => 122,
        KeyKind::F12 => 123,
        KeyKind::Up => 38,
        KeyKind::Down => 40,
        KeyKind::Left => 37,
        KeyKind::Right => 39,
        KeyKind::Home => 36,
        KeyKind::End => 35,
        KeyKind::PageUp => 33,
        KeyKind::PageDown => 34,
        KeyKind::Insert => 45,
        KeyKind::Delete => 46,
        KeyKind::Enter => 13,
        KeyKind::Space => 32,
        KeyKind::Tilde => 192,
        KeyKind::Quote => 222,
        KeyKind::Semicolon => 186,
        KeyKind::Comma => 188,
        KeyKind::Period => 190,
        KeyKind::Slash => 191,
        KeyKind::Esc => 27,
        KeyKind::Shift => 16,
        KeyKind::Ctrl => 17,
        KeyKind::Alt => 18,
        KeyKind::Backspace => 8,
    }
}

/// The virtual key code of a key.
pub fn to_virtual_key(kind: KeyKind) -> (res: u16)
    ensures
        res == virtual_key(kind),
{
    match kind {
        KeyKind::A => 65,
        KeyKind::B => 66,
        KeyKind::C => 67,
        KeyKind::D => 68,
        KeyKind::E => 69,
        KeyKind::F => 70,
        KeyKind::G => 71,
        KeyKind::H => 72,
        KeyKind::I => 73,
        KeyKind::J => 74,
        KeyKind::K => 75,
        KeyKind::L => 76,
        KeyKind::M => 77,
        KeyKind::N => 78,
        KeyKind::O => 79,
        KeyKind::P => 80,
        KeyKind::Q => 81,
        KeyKind::R => 82,
        KeyKind::S => 83,
        KeyKind::T => 84,
        KeyKind::U => 85,
        KeyKind::V => 86,
        KeyKind::W => 87,
        KeyKind::X => 88,
        KeyKind::Y => 89,
        KeyKind::Z => 90,
        KeyKind::Zero => 48,
        KeyKind::One => 49,
        KeyKind::Two => 50,
        KeyKind::Three => 51,
        KeyKind::Four => 52,
        KeyKind::Five => 53,
        KeyKind::Six => 54,
        KeyKind::Seven => 55,
        KeyKind::Eight => 56,
        KeyKind::Nine => 57,
        KeyKind::F1 => 112,
        KeyKind::F2 => 113,
        KeyKind::F3 => 114,
        KeyKind::F4 => 115,
        KeyKind::F5 => 116,
        KeyKind::F6 => 117,
        KeyKind::F7 => 118,
        KeyKind::F8 => 119,
        KeyKind::F9 => 120,
        KeyKind::F10 => 121,
        KeyKind::F11 => 122,
        KeyKind::F12 => 123,
        KeyKind::Up => 38,
        KeyKind::Down => 40,
        KeyKind::Left => 37,
        KeyKind::Right => 39,
        KeyKind::Home => 36,
        KeyKind::End => 35,
        KeyKind::PageUp => 33,
        KeyKind::PageDown => 34,
        KeyKind::Insert => 45,
        KeyKind::Delete => 46,
        KeyKind::Enter => 13,
        KeyKind::Space => 32,
        KeyKind::Tilde => 192,
        KeyKind::Quote => 222,
        KeyKind::Semicolon => 186,
        KeyKind::Comma => 188,
        KeyKind::Period => 190,
        KeyKind::Slash => 191,
        KeyKind::Esc => 27,
        KeyKind::Shift => 16,
        KeyKind::Ctrl => 17,
        KeyKind::Alt => 18,
        KeyKind::Backspace => 8,
    }
}

/// Whether some key has that code.
pub open spec fn is_known(code: u16) -> bool {
    exists|kind: KeyKind| #[trigger] virtual_key(kind) == code
}

/// The key that has a virtual key code.
pub fn try_from_virtual_key(code: u16) -> (res: Result<KeyKind, Error>)
    ensures
        match res {
            Ok(kind) => virtual_key(kind) == code,
            Err(error) => error == Error::KeyNotFound && !is_known(code),
        },
{
    match code {
        8 => Ok(KeyKind::Backspace),
        13 => Ok(KeyKind::Enter),
        16 => Ok(KeyKind::Shift),
        17 => Ok(KeyKind::Ctrl),
        18 => Ok(KeyKind::Alt),
        27 => Ok(KeyKind::Esc),
        32 => Ok(KeyKind::Space),
        33 => Ok(KeyKind::PageUp),
        34 => Ok(KeyKind::PageDown),
        35 => Ok(KeyKind::End),
        36 => Ok(KeyKind::Home),
        37 => Ok(KeyKind::Left),
        38 => Ok(KeyKind::Up),
        39 => Ok(KeyKind::Right),
        40 => Ok(KeyKind::Down),
        45 => Ok(KeyKind::Insert),
        46 => Ok(KeyKind::Delete),
        48 => Ok(KeyKind::Zero),
        49 => Ok(KeyKind::One),
        50 => Ok(KeyKind::Two),
        51 => Ok(KeyKind::Three),
        52 => Ok(KeyKind::Four),
        53 => Ok(KeyKind::Five),
        54 => Ok(KeyKind::Six),
        55 => Ok(KeyKind::Seven),
        56 => Ok(KeyKind::Eight),
        57 => Ok(KeyKind::Nine),
        65 => Ok(KeyKind::A),
        66 => Ok(KeyKind::B),
        67 => Ok(KeyKind::C),
        68 => Ok(KeyKind::D),
        69 => Ok(KeyKind::E),
        70 => Ok(KeyKind::F),
        71 => Ok(KeyKind::G),
        72 => Ok(KeyKind::H),
        73 => Ok(KeyKind::I),
        74 => Ok(KeyKind::J),
        75 => Ok(KeyKind::K),
        76 => Ok(KeyKind::L),
        77 => Ok(KeyKind::M),
        78 => Ok(KeyKind::N),
        79 => Ok(KeyKind::O),
        80 => Ok(KeyKind::P),
        81 => Ok(KeyKind::Q),
        82 => Ok(KeyKind::R),
        83 => Ok(KeyKind::S),
        84 => Ok(KeyKind::T),
        85 => Ok(KeyKind::U),
        86 => Ok(KeyKind::V),
        87 => Ok(KeyKind::W),
        88 => Ok(KeyKind::X),
        89 => Ok(KeyKind::Y),
        90 => Ok(KeyKind::Z),
        112 => Ok(KeyKind::F1),
        113 => Ok(KeyKind::F2),
        114 => Ok(KeyKind::F3),
        115 => Ok(KeyKind::F4),
        116 => Ok(KeyKind::F5),
        117 => Ok(KeyKind::F6),
        118 => Ok(KeyKind::F7),
        119 => Ok(KeyKind::F8),
        120 => Ok(KeyKind::F9),
        121 => Ok(KeyKind::F10),
        122 => Ok(KeyKind::F11),
        123 => Ok(KeyKind::F12),
        186 => Ok(KeyKind::Semicolon),
        188 => Ok(KeyKind::Comma),
        190 => Ok(KeyKind::Period),
        191 => Ok(KeyKind::Slash),
        192 => Ok(KeyKind::Tilde),
        222 => Ok(KeyKind::Quote),
        _ => Err(Error::KeyNotFound),
    }
}

/// No two keys have the same code, so that a key is found again by its code.
pub proof fn law_codes_tell_keys_apart(a: KeyKind, b: KeyKind)
    requires
        virtual_key(a) == virtual_key(b),
    ensures
        a == b,
{
}

/// Every code fits into a table of 256 keys.
pub proof fn law_codes_fit_the_table(kind: KeyKind)
    ensures
        0 < virtual_key(kind) < 256,
{
}

/// The code of a letter or a digit is that of its character, those of the function keys follow each
/// other, and every other key has the code that Windows documents for it.
pub proof fn law_codes_are_those_of_windows(kind: KeyKind)
    ensures
        virtual_key(kind) == match kind {
            KeyKind::A => 'A' as int,
            KeyKind::B => 'B' as int,
            KeyKind::C => 'C' as int,
            KeyKind::D => 'D' as int,
            KeyKind::E => 'E' as int,
            KeyKind::F => 'F' as int,
            KeyKind::G => 'G' as int,
            KeyKind::H => 'H' as int,
            KeyKind::I => 'I' as int,
            KeyKind::J => 'J' as int,
            KeyKind::K => 'K' as int,
            KeyKind::L => 'L' as int,
            KeyKind::M => 'M' as int,
            KeyKind::N => 'N' as int,
            KeyKind::O => 'O' as int,
            KeyKind::P => 'P' as int,
            KeyKind::Q => 'Q' as int,
            KeyKind::R => 'R' as int,
            KeyKind::S => 'S' as int,
            KeyKind::T => 'T' as int,
            KeyKind::U => 'U' as int,
            KeyKind::V => 'V' as int,
            KeyKind::W => 'W' as int,
            KeyKind::X => 'X' as int,
            KeyKind::Y => 'Y' as int,
            KeyKind::Z => 'Z' as int,
            KeyKind::Zero => '0' as int,
            KeyKind::One => '1' as int,
            KeyKind::Two => '2' as int,
            KeyKind::Three => '3' as int,
            KeyKind::Four => '4' as int,
            KeyKind::Five => '5' as int,
            KeyKind::Six => '6' as int,
            KeyKind::Seven => '7' as int,
            KeyKind::Eight => '8' as int,
            KeyKind::Nine => '9' as int,
            KeyKind::F1 => 0x6Fint + 1int,
            KeyKind::F2 => 0x6Fint + 2int,
            KeyKind::F3 => 0x6Fint + 3int,
            KeyKind::F4 => 0x6Fint + 4int,
            KeyKind::F5 => 0x6Fint + 5int,
            KeyKind::F6 => 0x6Fint + 6int,
            KeyKind::F7 => 0x6Fint + 7int,
            KeyKind::F8 => 0x6Fint + 8int,
            KeyKind::F9 => 0x6Fint + 9int,
            KeyKind::F10 => 0x6Fint + 10int,
            KeyKind::F11 => 0x6Fint + 11int,
            KeyKind::F12 => 0x6Fint + 12int,
            KeyKind::Up => 0x26,
            KeyKind::Down => 0x28,
            KeyKind::Left => 0x25,
            KeyKind::Right => 0x27,
            KeyKind::Home => 0x24,
            KeyKind::End => 0x23,
            KeyKind::PageUp => 0x21,
            KeyKind::PageDown => 0x22,
            KeyKind::Insert => 0x2D,
            KeyKind::Delete => 0x2E,
            KeyKind::Enter => 0x0D,
            KeyKind::Space => 0x20,
            KeyKind::Tilde => 0xC0,
            KeyKind::Quote => 0xDE,
            KeyKind::Semicolon => 0xBA,
            KeyKind::Comma => 0xBC,
            KeyKind::Period => 0xBE,
            KeyKind::Slash => 0xBF,
            KeyKind::Esc => 0x1B,
            KeyKind::Shift => 0x10,
            KeyKind::Ctrl => 0x11,
            KeyKind::Alt => 0x12,
            KeyKind::Backspace => 0x08,
        },
{
}

} // verus!
