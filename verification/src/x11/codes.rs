//! Resolution of the portable vocabulary into X11 protocol codes.
//!
//! Each logical key names exactly one X11 key symbol, and each supported
//! character names exactly one (key symbol, needs-shift) pair. Whether a
//! symbol is mapped to a physical key code is decided by the server's
//! keyboard mapping, modelled by [`super::display::OpenDisplay`].

use vstd::prelude::*;

use crate::button::Button;
use crate::key::Key;

verus! {

/// The key symbol of the left **Shift** key, injected around characters that
/// need the shift modifier.
pub const XK_SHIFT_L: u64 = 0xffe1;

/// The X11 key symbol that stands for a logical key.
pub open spec fn key_keysym(key: Key) -> u64 {
    match key {
        Key::A => 0x41,
        Key::B => 0x42,
        Key::C => 0x43,
        Key::D => 0x44,
        Key::E => 0x45,
        Key::F => 0x46,
        Key::G => 0x47,
        Key::H => 0x48,
        Key::I => 0x49,
        Key::J => 0x4a,
        Key::K => 0x4b,
        Key::L => 0x4c,
        Key::M => 0x4d,
        Key::N => 0x4e,
        Key::O => 0x4f,
        Key::P => 0x50,
        Key::Q => 0x51,
        Key::R => 0x52,
        Key::S => 0x53,
        Key::T => 0x54,
        Key::U => 0x55,
        Key::V => 0x56,
        Key::W => 0x57,
        Key::X => 0x58,
        Key::Y => 0x59,
        Key::Z => 0x5a,
        Key::F1 => 0xffbe,
        Key::F2 => 0xffbf,
        Key::F3 => 0xffc0,
        Key::F4 => 0xffc1,
        Key::F5 => 0xffc2,
        Key::F6 => 0xffc3,
        Key::F7 => 0xffc4,
        Key::F8 => 0xffc5,
        Key::F9 => 0xffc6,
        Key::F10 => 0xffc7,
        Key::F11 => 0xffc8,
        Key::F12 => 0xffc9,
        Key::F13 => 0xffca,
        Key::F14 => 0xffcb,
        Key::F15 => 0xffcc,
        Key::F16 => 0xffcd,
        Key::F17 => 0xffce,
        Key::F18 => 0xffcf,
        Key::F19 => 0xffd0,
        Key::F20 => 0xffd1,
        Key::F21 => 0xffd2,
        Key::F22 => 0xffd3,
        Key::F23 => 0xffd4,
        Key::F24 => 0xffd5,
        Key::Zero => 0x30,
        Key::One => 0x31,
        Key::Two => 0x32,
        Key::Three => 0x33,
        Key::Four => 0x34,
        Key::Five => 0x35,
        Key::Six => 0x36,
        Key::Seven => 0x37,
        Key::Eight => 0x38,
        Key::Nine => 0x39,
        Key::Escape => 0xff1b,
        Key::Tab => 0xff09,
        Key::CapsLock => 0xffe5,
        Key::LeftShift => 0xffe1,
        Key::LeftControl => 0xffe3,
        Key::LeftAlt => 0xffe9,
        Key::LeftMeta => 0xffe7,
        Key::Space => 0x20,
        Key::RightMeta => 0xffe8,
        Key::RightAlt => 0xffea,
        Key::RightControl => 0xffe4,
        Key::RightShift => 0xffe2,
        Key::Enter => 0xff0d,
        Key::Backspace => 0xff08,
        Key::Insert => 0xff63,
        Key::Delete => 0xffff,
        Key::Home => 0xff50,
        Key::End => 0xff57,
        Key::PageUp => 0xff55,
        Key::PageDown => 0xff56,
        Key::ArrowUp => 0xff52,
        Key::ArrowDown => 0xff54,
        Key::ArrowLeft => 0xff51,
        Key::ArrowRight => 0xff53,
        Key::NumLock => 0xff7f,
        Key::NumpadEqual => 0xffbd,
        Key::NumpadDivide => 0xffaf,
        Key::NumpadMultiply => 0xffaa,
        Key::NumpadAdd => 0xffab,
        Key::NumpadEnter => 0xff8d,
        Key::NumpadDecimal => 0xffae,
        Key::Numpad0 => 0xffb0,
        Key::Numpad1 => 0xffb1,
        Key::Numpad2 => 0xffb2,
        Key::Numpad3 => 0xffb3,
        Key::Numpad4 => 0xffb4,
        Key::Numpad5 => 0xffb5,
        Key::Numpad6 => 0xffb6,
        Key::Numpad7 => 0xffb7,
        Key::Numpad8 => 0xffb8,
        Key::Numpad9 => 0xffb9,
        Key::VolumeUp => 0x1008ff13,
        Key::VolumeDown => 0x1008ff11,
        Key::VolumeMute => 0x1008ff12,
        Key::MediaNext => 0x1008ff17,
        Key::MediaPrevious => 0x1008ff16,
        Key::MediaStop => 0x1008ff15,
        Key::MediaPause => 0x1008ff31,
    }
}

/// Converts a [`Key`] into an X11 key symbol.
pub fn key_to_x11(key: Key) -> (r: u64)
    ensures
        r == key_keysym(key),
{
    match key {
        Key::A => 0x41,
        Key::B => 0x42,
        Key::C => 0x43,
        Key::D => 0x44,
        Key::E => 0x45,
        Key::F => 0x46,
        Key::G => 0x47,
        Key::H => 0x48,
        Key::I => 0x49,
        Key::J => 0x4a,
        Key::K => 0x4b,
        Key::L => 0x4c,
        Key::M => 0x4d,
        Key::N => 0x4e,
        Key::O => 0x4f,
        Key::P => 0x50,
        Key::Q => 0x51,
        Key::R => 0x52,
        Key::S => 0x53,
        Key::T => 0x54,
        Key::U => 0x55,
        Key::V => 0x56,
        Key::W => 0x57,
        Key::X => 0x58,
        Key::Y => 0x59,
        Key::Z => 0x5a,
        Key::F1 => 0xffbe,
        Key::F2 => 0xffbf,
        Key::F3 => 0xffc0,
        Key::F4 => 0xffc1,
        Key::F5 => 0xffc2,
        Key::F6 => 0xffc3,
        Key::F7 => 0xffc4,
        Key::F8 => 0xffc5,
        Key::F9 => 0xffc6,
        Key::F10 => 0xffc7,
        Key::F11 => 0xffc8,
        Key::F12 => 0xffc9,
        Key::F13 => 0xffca,
        Key::F14 => 0xffcb,
        Key::F15 => 0xffcc,
        Key::F16 => 0xffcd,
        Key::F17 => 0xffce,
        Key::F18 => 0xffcf,
        Key::F19 => 0xffd0,
        Key::F20 => 0xffd1,
        Key::F21 => 0xffd2,
        Key::F22 => 0xffd3,
        Key::F23 => 0xffd4,
        Key::F24 => 0xffd5,
        Key::Zero => 0x30,
        Key::One => 0x31,
        Key::Two => 0x32,
        Key::Three => 0x33,
        Key::Four => 0x34,
        Key::Five => 0x35,
        Key::Six => 0x36,
        Key::Seven => 0x37,
        Key::Eight => 0x38,
        Key::Nine => 0x39,
        Key::Escape => 0xff1b,
        Key::Tab => 0xff09,
        Key::CapsLock => 0xffe5,
        Key::LeftShift => 0xffe1,
        Key::LeftControl => 0xffe3,
        Key::LeftAlt => 0xffe9,
        Key::LeftMeta => 0xffe7,
        Key::Space => 0x20,
        Key::RightMeta => 0xffe8,
        Key::RightAlt => 0xffea,
        Key::RightControl => 0xffe4,
        Key::RightShift => 0xffe2,
        Key::Enter => 0xff0d,
        Key::Backspace => 0xff08,
        Key::Insert => 0xff63,
        Key::Delete => 0xffff,
        Key::Home => 0xff50,
        Key::End => 0xff57,
        Key::PageUp => 0xff55,
        Key::PageDown => 0xff56,
        Key::ArrowUp => 0xff52,
        Key::ArrowDown => 0xff54,
        Key::ArrowLeft => 0xff51,
        Key::ArrowRight => 0xff53,
        Key::NumLock => 0xff7f,
        Key::NumpadEqual => 0xffbd,
        Key::NumpadDivide => 0xffaf,
        Key::NumpadMultiply => 0xffaa,
        Key::NumpadAdd => 0xffab,
        Key::NumpadEnter => 0xff8d,
        Key::NumpadDecimal => 0xffae,
        Key::Numpad0 => 0xffb0,
        Key::Numpad1 => 0xffb1,
        Key::Numpad2 => 0xffb2,
        Key::Numpad3 => 0xffb3,
        Key::Numpad4 => 0xffb4,
        Key::Numpad5 => 0xffb5,
        Key::Numpad6 => 0xffb6,
        Key::Numpad7 => 0xffb7,
        Key::Numpad8 => 0xffb8,
        Key::Numpad9 => 0xffb9,
        Key::VolumeUp => 0x1008ff13,
        Key::VolumeDown => 0x1008ff11,
        Key::VolumeMute => 0x1008ff12,
        Key::MediaNext => 0x1008ff17,
        Key::MediaPrevious => 0x1008ff16,
        Key::MediaStop => 0x1008ff15,
        Key::MediaPause => 0x1008ff31,
    }
}

/// The X11 pointer-button code that stands for a logical mouse button.
pub open spec fn button_keycode(button: Button) -> u32 {
    match button {
        Button::Left => 1,
        Button::Middle => 2,
        Button::Right => 3,
        Button::Extra(0u8) => 8,
        Button::Extra(1u8) => 9,
        Button::Extra(_) => 0,
    }
}

/// Converts a [`Button`] instance into a pointer-button code understood by
/// X11.
pub fn button_to_x11(button: Button) -> (r: u32)
    ensures
        r == button_keycode(button),
{
    match button {
        Button::Left => 1,
        Button::Middle => 2,
        Button::Right => 3,
        Button::Extra(0u8) => 8,
        Button::Extra(1u8) => 9,
        Button::Extra(_) => 0,
    }
}

/// The X11 key symbol of a character, paired with whether the shift modifier
/// must be held for the character to be produced; `None` when the fixed
/// mapping table has no entry for the character.
pub open spec fn char_keysym(c: char) -> Option<(u64, bool)> {
    match c {
        'a' => Some((0x61, false)),
        'b' => Some((0x62, false)),
        'c' => Some((0x63, false)),
        'd' => Some((0x64, false)),
        'e' => Some((0x65, false)),
        'f' => Some((0x66, false)),
        'g' => Some((0x67, false)),
        'h' => Some((0x68, false)),
        'i' => Some((0x69, false)),
        'j' => Some((0x6a, false)),
        'k' => Some((0x6b, false)),
        'l' => Some((0x6c, false)),
        'm' => Some((0x6d, false)),
        'n' => Some((0x6e, false)),
        'o' => Some((0x6f, false)),
        'p' => Some((0x70, false)),
        'q' => Some((0x71, false)),
        'r' => Some((0x72, false)),
        's' => Some((0x73, false)),
        't' => Some((0x74, false)),
        'u' => Some((0x75, false)),
        'v' => Some((0x76, false)),
        'w' => Some((0x77, false)),
        'x' => Some((0x78, false)),
        'y' => Some((0x79, false)),
        'z' => Some((0x7a, false)),
        'A' => Some((0x41, true)),
        'B' => Some((0x42, true)),
        'C' => Some((0x43, true)),
        'D' => Some((0x44, true)),
        'E' => Some((0x45, true)),
        'F' => Some((0x46, true)),
        'G' => Some((0x47, true)),
        'H' => Some((0x48, true)),
        'I' => Some((0x49, true)),
        'J' => Some((0x4a, true)),
        'K' => Some((0x4b, true)),
        'L' => Some((0x4c, true)),
        'M' => Some((0x4d, true)),
        'N' => Some((0x4e, true)),
        'O' => Some((0x4f, true)),
        'P' => Some((0x50, true)),
        'Q' => Some((0x51, true)),
        'R' => Some((0x52, true)),
        'S' => Some((0x53, true)),
        'T' => Some((0x54, true)),
        'U' => Some((0x55, true)),
        'V' => Some((0x56, true)),
        'W' => Some((0x57, true)),
        'X' => Some((0x58, true)),
        'Y' => Some((0x59, true)),
        'Z' => Some((0x5a, true)),
        '0' => Some((0x30, false)),
        '1' => Some((0x31, false)),
        '2' => Some((0x32, false)),
        '3' => Some((0x33, false)),
        '4' => Some((0x34, false)),
        '5' => Some((0x35, false)),
        '6' => Some((0x36, false)),
        '7' => Some((0x37, false)),
        '8' => Some((0x38, false)),
        '9' => Some((0x39, false)),
        ' ' => Some((0x20, false)),
        '!' => Some((0x21, true)),
        '"' => Some((0x22, true)),
        '#' => Some((0x23, true)),
        '$' => Some((0x24, true)),
        '%' => Some((0x25, true)),
        '&' => Some((0x26, true)),
        '(' => Some((0x28, true)),
        ')' => Some((0x29, true)),
        '*' => Some((0x2a, true)),
        '+' => Some((0x2b, true)),
        ',' => Some((0x2c, false)),
        '-' => Some((0x2d, false)),
        '.' => Some((0x2e, false)),
        '/' => Some((0x2f, false)),
        ':' => Some((0x3a, true)),
        ';' => Some((0x3b, false)),
        '<' => Some((0x3c, true)),
        '=' => Some((0x3d, false)),
        '>' => Some((0x3e, true)),
        '?' => Some((0x3f, true)),
        '@' => Some((0x40, true)),
        '[' => Some((0x5b, false)),
        '\'' => Some((0xad, false)),
        '\\' => Some((0x5c, false)),
        '\n' => Some((0xff0d, false)),
        '\t' => Some((0xff09, false)),
        ']' => Some((0x5d, false)),
        '^' => Some((0x5e, true)),
        '_' => Some((0x5f, true)),
        '`' => Some((0x60, false)),
        '{' => Some((0x7b, true)),
        '|' => Some((0x7c, true)),
        '}' => Some((0x7d, true)),
        '~' => Some((0x7e, true)),
        _ => None,
    }
}

/// Converts the given character into an X11 key symbol, if possible.
///
/// The `bool` indicates whether the shift key should be pressed.
pub fn char_to_x11(c: char) -> (r: Option<(u64, bool)>)
    ensures
        r == char_keysym(c),
{
    match c {
        'a' => Some((0x61, false)),
        'b' => Some((0x62, false)),
        'c' => Some((0x63, false)),
        'd' => Some((0x64, false)),
        'e' => Some((0x65, false)),
        'f' => Some((0x66, false)),
        'g' => Some((0x67, false)),
        'h' => Some((0x68, false)),
        'i' => Some((0x69, false)),
        'j' => Some((0x6a, false)),
        'k' => Some((0x6b, false)),
        'l' => Some((0x6c, false)),
        'm' => Some((0x6d, false)),
        'n' => Some((0x6e, false)),
        'o' => Some((0x6f, false)),
        'p' => Some((0x70, false)),
        'q' => Some((0x71, false)),
        'r' => Some((0x72, false)),
        's' => Some((0x73, false)),
        't' => Some((0x74, false)),
        'u' => Some((0x75, false)),
        'v' => Some((0x76, false)),
        'w' => Some((0x77, false)),
        'x' => Some((0x78, false)),
        'y' => Some((0x79, false)),
        'z' => Some((0x7a, false)),
        'A' => Some((0x41, true)),
        'B' => Some((0x42, true)),
        'C' => Some((0x43, true)),
        'D' => Some((0x44, true)),
        'E' => Some((0x45, true)),
        'F' => Some((0x46, true)),
        'G' => Some((0x47, true)),
        'H' => Some((0x48, true)),
        'I' => Some((0x49, true)),
        'J' => Some((0x4a, true)),
        'K' => Some((0x4b, true)),
        'L' => Some((0x4c, true)),
        'M' => Some((0x4d, true)),
        'N' => Some((0x4e, true)),
        'O' => Some((0x4f, true)),
        'P' => Some((0x50, true)),
        'Q' => Some((0x51, true)),
        'R' => Some((0x52, true)),
        'S' => Some((0x53, true)),
        'T' => Some((0x54, true)),
        'U' => Some((0x55, true)),
        'V' => Some((0x56, true)),
        'W' => Some((0x57, true)),
        'X' => Some((0x58, true)),
        'Y' => Some((0x59, true)),
        'Z' => Some((0x5a, true)),
        '0' => Some((0x30, false)),
        '1' => Some((0x31, false)),
        '2' => Some((0x32, false)),
        '3' => Some((0x33, false)),
        '4' => Some((0x34, false)),
        '5' => Some((0x35, false)),
        '6' => Some((0x36, false)),
        '7' => Some((0x37, false)),
        '8' => Some((0x38, false)),
        '9' => Some((0x39, false)),
        ' ' => Some((0x20, false)),
        '!' => Some((0x21, true)),
        '"' => Some((0x22, true)),
        '#' => Some((0x23, true)),
        '$' => Some((0x24, true)),
        '%' => Some((0x25, true)),
        '&' => Some((0x26, true)),
        '(' => Some((0x28, true)),
        ')' => Some((0x29, true)),
        '*' => Some((0x2a, true)),
        '+' => Some((0x2b, true)),
        ',' => Some((0x2c, false)),
        '-' => Some((0x2d, false)),
        '.' => Some((0x2e, false)),
        '/' => Some((0x2f, false)),
        ':' => Some((0x3a, true)),
        ';' => Some((0x3b, false)),
        '<' => Some((0x3c, true)),
        '=' => Some((0x3d, false)),
        '>' => Some((0x3e, true)),
        '?' => Some((0x3f, true)),
        '@' => Some((0x40, true)),
        '[' => Some((0x5b, false)),
        '\'' => Some((0xad, false)),
        '\\' => Some((0x5c, false)),
        '\n' => Some((0xff0d, false)),
        '\t' => Some((0xff09, false)),
        ']' => Some((0x5d, false)),
        '^' => Some((0x5e, true)),
        '_' => Some((0x5f, true)),
        '`' => Some((0x60, false)),
        '{' => Some((0x7b, true)),
        '|' => Some((0x7c, true)),
        '}' => Some((0x7d, true)),
        '~' => Some((0x7e, true)),
        _ => None,
    }
}

} // verus!
