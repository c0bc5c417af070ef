//! Round-trip resolution of the portable vocabulary (both backend tables),
//! exercised through fake connections, plus anchor values from the native
//! headers.

use keysim::key::Key;
use keysim::windows::codes::key_to_vk;
use keysim::windows::records::InputRecord;
use keysim::windows::simulator::Simulator as WindowsSimulator;
use keysim::x11::codes::{button_to_x11, char_to_x11, key_to_x11};
use keysim::x11::display::OpenDisplay;
use keysim::x11::simulator::Simulator as X11Simulator;
use keysim::x11::wire::Request;
use keysim::Button;

fn all_keys() -> Vec<Key> {
    vec![
        Key::A,
        Key::B,
        Key::C,
        Key::D,
        Key::E,
        Key::F,
        Key::G,
        Key::H,
        Key::I,
        Key::J,
        Key::K,
        Key::L,
        Key::M,
        Key::N,
        Key::O,
        Key::P,
        Key::Q,
        Key::R,
        Key::S,
        Key::T,
        Key::U,
        Key::V,
        Key::W,
        Key::X,
        Key::Y,
        Key::Z,
        Key::F1,
        Key::F2,
        Key::F3,
        Key::F4,
        Key::F5,
        Key::F6,
        Key::F7,
        Key::F8,
        Key::F9,
        Key::F10,
        Key::F11,
        Key::F12,
        Key::F13,
        Key::F14,
        Key::F15,
        Key::F16,
        Key::F17,
        Key::F18,
        Key::F19,
        Key::F20,
        Key::F21,
        Key::F22,
        Key::F23,
        Key::F24,
        Key::Zero,
        Key::One,
        Key::Two,
        Key::Three,
        Key::Four,
        Key::Five,
        Key::Six,
        Key::Seven,
        Key::Eight,
        Key::Nine,
        Key::Escape,
        Key::Tab,
        Key::CapsLock,
        Key::LeftShift,
        Key::LeftControl,
        Key::LeftAlt,
        Key::LeftMeta,
        Key::Space,
        Key::RightMeta,
        Key::RightAlt,
        Key::RightControl,
        Key::RightShift,
        Key::Enter,
        Key::Backspace,
        Key::Insert,
        Key::Delete,
        Key::Home,
        Key::End,
        Key::PageUp,
        Key::PageDown,
        Key::ArrowUp,
        Key::ArrowDown,
        Key::ArrowLeft,
        Key::ArrowRight,
        Key::NumLock,
        Key::NumpadEqual,
        Key::NumpadDivide,
        Key::NumpadMultiply,
        Key::NumpadAdd,
        Key::NumpadEnter,
        Key::NumpadDecimal,
        Key::Numpad0,
        Key::Numpad1,
        Key::Numpad2,
        Key::Numpad3,
        Key::Numpad4,
        Key::Numpad5,
        Key::Numpad6,
        Key::Numpad7,
        Key::Numpad8,
        Key::Numpad9,
        Key::VolumeUp,
        Key::VolumeDown,
        Key::VolumeMute,
        Key::MediaNext,
        Key::MediaPrevious,
        Key::MediaStop,
        Key::MediaPause,
    ]
}

#[test]
fn every_key_resolves_through_its_x11_symbol() {
    // For each logical key, pressing it makes the backend resolve exactly
    // the key's own symbol: mapping that one symbol to a known code is
    // enough for the press to come out with that code.
    for key in all_keys() {
        let mut display = OpenDisplay::new(true);
        display.map_key(key_to_x11(key), 42);
        let mut sim = X11Simulator::new(display);
        assert_eq!(sim.press_key(key), Ok(()));
        assert_eq!(
            sim.display.requests().as_slice(),
            &[
                Request::FakeKey { keycode: 42, press: true, delay: 0 },
                Request::Flush,
            ]
        );
    }
}

#[test]
fn every_key_resolves_through_its_virtual_key() {
    // Same round trip on the Windows table: every key with a native entry
    // submits a record carrying exactly that virtual-key code.
    for key in all_keys() {
        let vk = match key_to_vk(key) {
            Some(vk) => vk,
            None => {
                assert_eq!(key, Key::NumpadEqual);
                continue;
            }
        };
        let mut sim = WindowsSimulator::new().unwrap();
        assert_eq!(sim.press_key(key), Ok(()));
        let accepted = sim.queue.accepted();
        assert_eq!(accepted.len(), 1);
        match accepted[0] {
            InputRecord::Key { vk: got, scan, flags, time, extra } => {
                assert_eq!(got, vk);
                assert_eq!(scan, 0);
                assert_eq!(flags, 0);
                assert_eq!(time, 0);
                assert_eq!(extra, 0);
            }
            _ => panic!("a key press must submit a keyboard record"),
        }
    }
}

#[test]
fn x11_symbols_match_the_protocol_headers() {
    assert_eq!(key_to_x11(Key::A), 0x41);
    assert_eq!(key_to_x11(Key::Z), 0x5a);
    assert_eq!(key_to_x11(Key::Zero), 0x30);
    assert_eq!(key_to_x11(Key::Nine), 0x39);
    assert_eq!(key_to_x11(Key::F1), 0xffbe);
    assert_eq!(key_to_x11(Key::F24), 0xffd5);
    assert_eq!(key_to_x11(Key::Escape), 0xff1b);
    assert_eq!(key_to_x11(Key::Space), 0x20);
    assert_eq!(key_to_x11(Key::LeftShift), 0xffe1);
    assert_eq!(key_to_x11(Key::Enter), 0xff0d);
    assert_eq!(key_to_x11(Key::Numpad0), 0xffb0);
    assert_eq!(key_to_x11(Key::Numpad9), 0xffb9);
    assert_eq!(key_to_x11(Key::NumpadEqual), 0xffbd);
    assert_eq!(key_to_x11(Key::VolumeUp), 0x1008ff13);
    assert_eq!(key_to_x11(Key::MediaPause), 0x1008ff31);
}

#[test]
fn virtual_keys_match_the_native_headers() {
    assert_eq!(key_to_vk(Key::A), Some(0x41));
    assert_eq!(key_to_vk(Key::Zero), Some(0x30));
    assert_eq!(key_to_vk(Key::F1), Some(0x70));
    assert_eq!(key_to_vk(Key::F24), Some(0x87));
    assert_eq!(key_to_vk(Key::Escape), Some(0x1b));
    assert_eq!(key_to_vk(Key::CapsLock), Some(0x14));
    assert_eq!(key_to_vk(Key::LeftShift), Some(0xa0));
    assert_eq!(key_to_vk(Key::LeftMeta), Some(0x5b));
    assert_eq!(key_to_vk(Key::PageUp), Some(0x21));
    assert_eq!(key_to_vk(Key::PageDown), Some(0x22));
    assert_eq!(key_to_vk(Key::Numpad0), Some(0x60));
    assert_eq!(key_to_vk(Key::NumpadEnter), Some(0x0d));
    assert_eq!(key_to_vk(Key::NumpadEqual), None);
    assert_eq!(key_to_vk(Key::VolumeMute), Some(0xad));
    assert_eq!(key_to_vk(Key::MediaPause), Some(0xb3));
}

#[test]
fn characters_resolve_with_their_shift_requirement() {
    assert_eq!(char_to_x11('a'), Some((0x61, false)));
    assert_eq!(char_to_x11('z'), Some((0x7a, false)));
    assert_eq!(char_to_x11('A'), Some((0x41, true)));
    assert_eq!(char_to_x11('Z'), Some((0x5a, true)));
    assert_eq!(char_to_x11('0'), Some((0x30, false)));
    assert_eq!(char_to_x11(' '), Some((0x20, false)));
    assert_eq!(char_to_x11('!'), Some((0x21, true)));
    assert_eq!(char_to_x11(','), Some((0x2c, false)));
    assert_eq!(char_to_x11('\''), Some((0xad, false)));
    assert_eq!(char_to_x11('\n'), Some((0xff0d, false)));
    assert_eq!(char_to_x11('\t'), Some((0xff09, false)));
    assert_eq!(char_to_x11('~'), Some((0x7e, true)));
    assert_eq!(char_to_x11('€'), None);
}

#[test]
fn buttons_resolve_to_pointer_codes() {
    assert_eq!(button_to_x11(Button::Left), 1);
    assert_eq!(button_to_x11(Button::Middle), 2);
    assert_eq!(button_to_x11(Button::Right), 3);
    assert_eq!(button_to_x11(Button::Extra(0)), 8);
    assert_eq!(button_to_x11(Button::Extra(1)), 9);
    assert_eq!(button_to_x11(Button::Extra(5)), 0);
}
