use komari::bridge::{KeyKind, MouseKind};
use komari::geometry::{Point, Rect};
use komari::windows::input::{
    key_state, to_scan_code, Handle, KeyPoll, KeyState, KeyboardInput, Target, WindowsInput,
    WindowsInputReceiver, KEYEVENTF_EXTENDEDKEY, KEYEVENTF_KEYUP, KEY_CODES,
};
use komari::windows::keys::{to_virtual_key, try_from_virtual_key, VK_INSERT};
use komari::windows::mouse::{
    screen_to_absolute_coordinate, send_mouse, MouseInput, MouseStep, CLICK_MILLIS,
    MOUSEEVENTF_ABSOLUTE, MOUSEEVENTF_LEFTDOWN, MOUSEEVENTF_LEFTUP, MOUSEEVENTF_MOVE,
    MOUSEEVENTF_VIRTUALDESK, MOUSEEVENTF_WHEEL,
};
use komari::windows::window::{
    is_foreground, query_capture_handles, Edges, Placement, WindowTraits, WS_DISABLED,
    WS_EX_TOOLWINDOW,
};
use komari::windows::{Error, InputKind};
use windows::Win32::UI::Input::KeyboardAndMouse as keyboard;
use windows::Win32::UI::WindowsAndMessaging as messaging;

const READY: Target = Target { found: true, foreground: true, mapped: 0x1E };

#[test]
fn keys_have_their_codes() {
    assert_eq!(to_virtual_key(KeyKind::A), 0x41);
    assert_eq!(to_virtual_key(KeyKind::Zero), 0x30);
    assert_eq!(to_virtual_key(KeyKind::F12), 0x7B);
    assert_eq!(to_virtual_key(KeyKind::PageUp), 0x21);
    assert_eq!(to_virtual_key(KeyKind::Ctrl), 0x11);
    assert_eq!(to_virtual_key(KeyKind::Quote), 0xDE);
    for code in 0..=u16::from(u8::MAX) {
        match try_from_virtual_key(code) {
            Ok(key) => assert_eq!(to_virtual_key(key), code),
            Err(error) => assert_eq!(error, Error::KeyNotFound),
        }
    }
    assert_eq!((0..256).filter(|code| try_from_virtual_key(*code).is_ok()).count(), 71);
    assert_eq!(try_from_virtual_key(0x07), Err(Error::KeyNotFound));
}

#[test]
fn state_of_a_key_is_its_highest_bit() {
    assert_eq!(key_state(0x8000), KeyState::Pressed);
    assert_eq!(key_state(0x8001), KeyState::Pressed);
    assert_eq!(key_state(0x0001), KeyState::Released);
}

#[test]
fn held_key_is_polled_once() {
    let mut poll = KeyPoll::new();
    let mut states = vec![0u16; KEY_CODES];
    states[0x41] = 0x8000;
    states[0x20] = 0x8001;
    states[0x42] = 1;
    // Not a key that is known, and one that is out of range.
    states[0x0A] = 0x8000;
    states[0xDE] = 0x8000;
    assert_eq!(poll.poll(&states), vec![KeyKind::Space, KeyKind::A]);
    assert_eq!(poll.poll(&states), vec![]);
    states[0x41] = 0;
    assert_eq!(poll.poll(&states), vec![]);
    states[0x41] = 0x8000;
    assert_eq!(poll.poll(&states), vec![KeyKind::A]);
}

#[test]
fn insert_is_an_extended_key() {
    assert_eq!(to_scan_code(VK_INSERT, 0x52), (0x52, true));
    assert_eq!(to_scan_code(0x41, 0x1E), (0x1E, false));
    assert_eq!(to_scan_code(0x26, 0xE048), (0x48, true));
}

#[test]
fn key_is_pressed_and_released() {
    let mut input = WindowsInput::new();
    assert!(input.is_all_keys_cleared());
    assert_eq!(
        input.send_key_down(KeyKind::A, false, READY),
        Ok(KeyboardInput { code: 0x41, scan_code: 0x1E, flags: 0 })
    );
    assert!(!input.is_all_keys_cleared());
    assert_eq!(input.send_key_down(KeyKind::A, false, READY), Err(Error::KeyNotSent));
    assert!(input.send_key_down(KeyKind::A, true, READY).is_ok());
    // A key is released whatever window is in front.
    let behind = Target { foreground: false, ..READY };
    assert_eq!(
        input.send_key_up(KeyKind::A, behind),
        Ok(KeyboardInput { code: 0x41, scan_code: 0x1E, flags: 2 })
    );
    assert!(input.is_all_keys_cleared());
    assert_eq!(input.send_key_up(KeyKind::A, READY), Err(Error::KeyNotSent));
}

#[test]
fn key_needs_a_window() {
    let mut input = WindowsInput::new();
    let behind = Target { foreground: false, ..READY };
    let gone = Target { found: false, ..READY };
    assert_eq!(input.send_key_down(KeyKind::A, false, behind), Err(Error::KeyNotSent));
    assert_eq!(input.send_key_down(KeyKind::A, false, gone), Err(Error::WindowNotFound));
    assert_eq!(input.send_key_up(KeyKind::A, gone), Err(Error::WindowNotFound));
    assert!(input.is_all_keys_cleared());
}

#[test]
fn key_is_not_sent_while_it_is_being_sent() {
    let mut input = WindowsInput::new();
    assert!(input.send_key(KeyKind::Space, READY).is_ok());
    input.set_key_sending(KeyKind::Space, true);
    assert!(input.is_key_sending(KeyKind::Space));
    assert!(!input.is_key_sending(KeyKind::A));
    assert_eq!(input.send_key(KeyKind::Space, READY), Err(Error::KeyNotSent));
    assert!(input.send_key(KeyKind::A, READY).is_ok());
    let up = input.end_key(KeyKind::Space, READY);
    assert_eq!(up, Some(KeyboardInput { code: 0x20, scan_code: 0x1E, flags: 2 }));
    assert!(!input.is_key_sending(KeyKind::Space));
    assert!(input.send_key(KeyKind::Space, READY).is_ok());
    // Where the key has been released meanwhile, there is nothing left to send.
    assert!(input.send_key_up(KeyKind::Space, READY).is_ok());
    assert_eq!(input.end_key(KeyKind::Space, READY), None);
}

#[test]
fn receiver_keeps_what_it_is_for() {
    let receiver = WindowsInputReceiver::new(Handle { raw: 7 }, InputKind::Focused);
    assert_eq!(receiver.handle.raw, 7);
    assert_eq!(receiver.input_kind, InputKind::Focused);
}

#[test]
fn points_are_mapped_onto_the_desktop() {
    let desktop = Rect::new(-1920, 0, 3840, 1080);
    assert_eq!(screen_to_absolute_coordinate(Point::new(-1920, 0), desktop), Ok((0, 0)));
    assert_eq!(screen_to_absolute_coordinate(Point::new(0, 540), desktop), Ok((32768, 32768)));
    assert_eq!(screen_to_absolute_coordinate(Point::new(-1921, 1), desktop), Ok((-17, 60)));
    assert_eq!(
        screen_to_absolute_coordinate(Point::new(0, 0), Rect::new(0, 0, 0, 10)),
        Err(Error::WindowInvalidSize)
    );
    // As far away as can be computed.
    assert_eq!(
        screen_to_absolute_coordinate(Point::new(-32768, 32767), Rect::new(0, 0, 1, -1)),
        Ok((i32::MIN, -2_147_418_112))
    );
    // Far away from a desktop without any size, or from a window that is not there.
    let far = Point::new(1_000_000, 0);
    assert_eq!(
        screen_to_absolute_coordinate(far, Rect::new(0, 0, 10, 0)),
        Err(Error::WindowInvalidSize)
    );
    assert_eq!(
        send_mouse(far, Rect::new(0, 0, 10, 10), MouseKind::Move, false, true),
        Err(Error::WindowNotFound)
    );
}

#[test]
fn mouse_is_clicked_with_a_pause() {
    let desktop = Rect::new(0, 0, 65536, 65536);
    let at = Point::new(3, 4);
    let input =
        |flags: u32, data: i32| MouseStep::Input(MouseInput { dx: 3, dy: 4, flags, data });
    assert_eq!(
        send_mouse(at, desktop, MouseKind::Move, true, true),
        Ok(vec![input(0xC001, 0)])
    );
    assert_eq!(
        send_mouse(at, desktop, MouseKind::Click, true, true),
        Ok(vec![input(0xC003, 0), MouseStep::Sleep(CLICK_MILLIS), input(0xC005, 0)])
    );
    assert_eq!(
        send_mouse(at, desktop, MouseKind::Scroll, true, true),
        Ok(vec![input(0xC801, -150)])
    );
    for (found, foreground) in [(false, true), (true, false)] {
        assert_eq!(
            send_mouse(at, desktop, MouseKind::Move, found, foreground),
            Err(Error::WindowNotFound)
        );
    }
}

#[test]
fn only_usable_windows_are_captured() {
    let fine = WindowTraits { visible: true, cloaked: 0, style: 0x10, ex_style: 0x100 };
    let windows = vec![
        (Handle { raw: 1 }, fine),
        (Handle { raw: 2 }, WindowTraits { visible: false, ..fine }),
        (Handle { raw: 3 }, WindowTraits { cloaked: 2, ..fine }),
        (Handle { raw: 4 }, WindowTraits { style: 0x0800_0000, ..fine }),
        (Handle { raw: 5 }, WindowTraits { ex_style: 0x80, ..fine }),
        (Handle { raw: 6 }, fine),
    ];
    assert_eq!(query_capture_handles(&windows), vec![Handle { raw: 1 }, Handle { raw: 6 }]);
}

#[test]
fn inputs_go_to_the_right_window() {
    let edges = Some(Edges { left: 0, top: 0, right: 100, bottom: 100 });
    let game = Placement { handle: 1, monitor: 9, edges };
    let above = Placement { handle: 2, monitor: 9, edges };
    assert!(is_foreground(Some(game), game, InputKind::Focused));
    assert!(!is_foreground(Some(game), game, InputKind::Foreground));
    assert!(!is_foreground(Some(above), game, InputKind::Focused));
    assert!(is_foreground(Some(above), game, InputKind::Foreground));
    assert!(!is_foreground(None, game, InputKind::Focused));
    let elsewhere = Placement { monitor: 8, ..above };
    assert!(!is_foreground(Some(elsewhere), game, InputKind::Foreground));
    let unknown = Placement { edges: None, ..above };
    assert!(!is_foreground(Some(unknown), game, InputKind::Foreground));
    let beside = Edges { left: 100, top: 0, right: 200, bottom: 100 };
    let beside = Placement { edges: Some(beside), ..above };
    assert!(!is_foreground(Some(beside), game, InputKind::Foreground));
}

#[test]
fn codes_are_those_of_windows() {
    let codes = [
        (KeyKind::A, keyboard::VK_A),
        (KeyKind::B, keyboard::VK_B),
        (KeyKind::C, keyboard::VK_C),
        (KeyKind::D, keyboard::VK_D),
        (KeyKind::E, keyboard::VK_E),
        (KeyKind::F, keyboard::VK_F),
        (KeyKind::G, keyboard::VK_G),
        (KeyKind::H, keyboard::VK_H),
        (KeyKind::I, keyboard::VK_I),
        (KeyKind::J, keyboard::VK_J),
        (KeyKind::K, keyboard::VK_K),
        (KeyKind::L, keyboard::VK_L),
        (KeyKind::M, keyboard::VK_M),
        (KeyKind::N, keyboard::VK_N),
        (KeyKind::O, keyboard::VK_O),
        (KeyKind::P, keyboard::VK_P),
        (KeyKind::Q, keyboard::VK_Q),
        (KeyKind::R, keyboard::VK_R),
        (KeyKind::S, keyboard::VK_S),
        (KeyKind::T, keyboard::VK_T),
        (KeyKind::U, keyboard::VK_U),
        (KeyKind::V, keyboard::VK_V),
        (KeyKind::W, keyboard::VK_W),
        (KeyKind::X, keyboard::VK_X),
        (KeyKind::Y, keyboard::VK_Y),
        (KeyKind::Z, keyboard::VK_Z),
        (KeyKind::Zero, keyboard::VK_0),
        (KeyKind::One, keyboard::VK_1),
        (KeyKind::Two, keyboard::VK_2),
        (KeyKind::Three, keyboard::VK_3),
        (KeyKind::Four, keyboard::VK_4),
        (KeyKind::Five, keyboard::VK_5),
        (KeyKind::Six, keyboard::VK_6),
        (KeyKind::Seven, keyboard::VK_7),
        (KeyKind::Eight, keyboard::VK_8),
        (KeyKind::Nine, keyboard::VK_9),
        (KeyKind::F1, keyboard::VK_F1),
        (KeyKind::F2, keyboard::VK_F2),
        (KeyKind::F3, keyboard::VK_F3),
        (KeyKind::F4, keyboard::VK_F4),
        (KeyKind::F5, keyboard::VK_F5),
        (KeyKind::F6, keyboard::VK_F6),
        (KeyKind::F7, keyboard::VK_F7),
        (KeyKind::F8, keyboard::VK_F8),
        (KeyKind::F9, keyboard::VK_F9),
        (KeyKind::F10, keyboard::VK_F10),
        (KeyKind::F11, keyboard::VK_F11),
        (KeyKind::F12, keyboard::VK_F12),
        (KeyKind::Up, keyboard::VK_UP),
        (KeyKind::Down, keyboard::VK_DOWN),
        (KeyKind::Left, keyboard::VK_LEFT),
        (KeyKind::Right, keyboard::VK_RIGHT),
        (KeyKind::Home, keyboard::VK_HOME),
        (KeyKind::End, keyboard::VK_END),
        (KeyKind::PageUp, keyboard::VK_PRIOR),
        (KeyKind::PageDown, keyboard::VK_NEXT),
        (KeyKind::Insert, keyboard::VK_INSERT),
        (KeyKind::Delete, keyboard::VK_DELETE),
        (KeyKind::Enter, keyboard::VK_RETURN),
        (KeyKind::Space, keyboard::VK_SPACE),
        (KeyKind::Tilde, keyboard::VK_OEM_3),
        (KeyKind::Quote, keyboard::VK_OEM_7),
        (KeyKind::Semicolon, keyboard::VK_OEM_1),
        (KeyKind::Comma, keyboard::VK_OEM_COMMA),
        (KeyKind::Period, keyboard::VK_OEM_PERIOD),
        (KeyKind::Slash, keyboard::VK_OEM_2),
        (KeyKind::Esc, keyboard::VK_ESCAPE),
        (KeyKind::Shift, keyboard::VK_SHIFT),
        (KeyKind::Ctrl, keyboard::VK_CONTROL),
        (KeyKind::Alt, keyboard::VK_MENU),
        (KeyKind::Backspace, keyboard::VK_BACK),
    ];
    for (key, code) in codes {
        assert_eq!(to_virtual_key(key), code.0);
        assert_eq!(try_from_virtual_key(code.0), Ok(key));
    }
    assert_eq!(VK_INSERT, keyboard::VK_INSERT.0);
    assert_eq!(KEYEVENTF_EXTENDEDKEY, keyboard::KEYEVENTF_EXTENDEDKEY.0);
    assert_eq!(KEYEVENTF_KEYUP, keyboard::KEYEVENTF_KEYUP.0);
    assert_eq!(MOUSEEVENTF_MOVE, keyboard::MOUSEEVENTF_MOVE.0);
    assert_eq!(MOUSEEVENTF_LEFTDOWN, keyboard::MOUSEEVENTF_LEFTDOWN.0);
    assert_eq!(MOUSEEVENTF_LEFTUP, keyboard::MOUSEEVENTF_LEFTUP.0);
    assert_eq!(MOUSEEVENTF_WHEEL, keyboard::MOUSEEVENTF_WHEEL.0);
    assert_eq!(MOUSEEVENTF_VIRTUALDESK, keyboard::MOUSEEVENTF_VIRTUALDESK.0);
    assert_eq!(MOUSEEVENTF_ABSOLUTE, keyboard::MOUSEEVENTF_ABSOLUTE.0);
    assert_eq!(WS_DISABLED, messaging::WS_DISABLED.0);
    assert_eq!(WS_EX_TOOLWINDOW, messaging::WS_EX_TOOLWINDOW.0);
}
