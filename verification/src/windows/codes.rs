//! Resolution of the portable vocabulary into Windows virtual-key codes.

use vstd::prelude::*;

use crate::key::Key;

verus! {

/// The Windows virtual-key code that stands for a logical key; `None` when
/// the portable-to-native table has no entry for the key.
pub open spec fn key_vk(key: Key) -> Option<u16> {
    match key {
        Key::A => Some(0x41),
        Key::B => Some(0x42),
        Key::C => Some(0x43),
        Key::D => Some(0x44),
        Key::E => Some(0x45),
        Key::F => Some(0x46),
        Key::G => Some(0x47),
        Key::H => Some(0x48),
        Key::I => Some(0x49),
        Key::J => Some(0x4a),
        Key::K => Some(0x4b),
        Key::L => Some(0x4c),
        Key::M => Some(0x4d),
        Key::N => Some(0x4e),
        Key::O => Some(0x4f),
        Key::P => Some(0x50),
        Key::Q => Some(0x51),
        Key::R => Some(0x52),
        Key::S => Some(0x53),
        Key::T => Some(0x54),
        Key::U => Some(0x55),
        Key::V => Some(0x56),
        Key::W => Some(0x57),
        Key::X => Some(0x58),
        Key::Y => Some(0x59),
        Key::Z => Some(0x5a),
        Key::F1 => Some(0x70),
        Key::F2 => Some(0x71),
        Key::F3 => Some(0x72),
        Key::F4 => Some(0x73),
        Key::F5 => Some(0x74),
        Key::F6 => Some(0x75),
        Key::F7 => Some(0x76),
        Key::F8 => Some(0x77),
        Key::F9 => Some(0x78),
        Key::F10 => Some(0x79),
        Key::F11 => Some(0x7a),
        Key::F12 => Some(0x7b),
        Key::F13 => Some(0x7c),
        Key::F14 => Some(0x7d),
        Key::F15 => Some(0x7e),
        Key::F16 => Some(0x7f),
        Key::F17 => Some(0x80),
        Key::F18 => Some(0x81),
        Key::F19 => Some(0x82),
        Key::F20 => Some(0x83),
        Key::F21 => Some(0x84),
        Key::F22 => Some(0x85),
        Key::F23 => Some(0x86),
        Key::F24 => Some(0x87),
        Key::Zero => Some(0x30),
        Key::One => Some(0x31),
        Key::Two => Some(0x32),
        Key::Three => Some(0x33),
        Key::Four => Some(0x34),
        Key::Five => Some(0x35),
        Key::Six => Some(0x36),
        Key::Seven => Some(0x37),
        Key::Eight => Some(0x38),
        Key::Nine => Some(0x39),
        Key::Escape => Some(0x1b),
        Key::Tab => Some(0x9),
        Key::CapsLock => Some(0x14),
        Key::LeftShift => Some(0xa0),
        Key::LeftControl => Some(0xa2),
        Key::LeftAlt => Some(0xa4),
        Key::LeftMeta => Some(0x5b),
        Key::Space => Some(0x20),
        Key::RightMeta => Some(0x5c),
        Key::RightAlt => Some(0xa5),
        Key::RightControl => Some(0xa3),
        Key::RightShift => Some(0xa1),
        Key::Enter => Some(0xd),
        Key::Backspace => Some(0x8),
        Key::Insert => Some(0x2d),
        Key::Delete => Some(0x2e),
        Key::Home => Some(0x24),
        Key::End => Some(0x23),
        Key::PageUp => Some(0x21),
        Key::PageDown => Some(0x22),
        Key::ArrowUp => Some(0x26),
        Key::ArrowDown => Some(0x28),
        Key::ArrowLeft => Some(0x25),
        Key::ArrowRight => Some(0x27),
        Key::NumLock => Some(0x90),
        Key::NumpadEqual => None,
        Key::NumpadDivide => Some(0x6f),
        Key::NumpadMultiply => Some(0x6a),
        Key::NumpadAdd => Some(0x6b),
        Key::NumpadEnter => Some(0xd),
        Key::NumpadDecimal => Some(0x6e),
        Key::Numpad0 => Some(0x60),
        Key::Numpad1 => Some(0x61),
        Key::Numpad2 => Some(0x62),
        Key::Numpad3 => Some(0x63),
        Key::Numpad4 => Some(0x64),
        Key::Numpad5 => Some(0x65),
        Key::Numpad6 => Some(0x66),
        Key::Numpad7 => Some(0x67),
        Key::Numpad8 => Some(0x68),
        Key::Numpad9 => Some(0x69),
        Key::VolumeUp => Some(0xaf),
        Key::VolumeDown => Some(0xae),
        Key::VolumeMute => Some(0xad),
        Key::MediaNext => Some(0xb0),
        Key::MediaPrevious => Some(0xb1),
        Key::MediaStop => Some(0xb2),
        Key::MediaPause => Some(0xb3),
    }
}

/// Converts a [`Key`] into a Windows virtual-key code.
pub fn key_to_vk(key: Key) -> (r: Option<u16>)
    ensures
        r == key_vk(key),
{
    match key {
        Key::A => Some(0x41),
        Key::B => Some(0x42),
        Key::C => Some(0x43),
        Key::D => Some(0x44),
        Key::E => Some(0x45),
        Key::F => Some(0x46),
        Key::G => Some(0x47),
        Key::H => Some(0x48),
        Key::I => Some(0x49),
        Key::J => Some(0x4a),
        Key::K => Some(0x4b),
        Key::L => Some(0x4c),
        Key::M => Some(0x4d),
        Key::N => Some(0x4e),
        Key::O => Some(0x4f),
        Key::P => Some(0x50),
        Key::Q => Some(0x51),
        Key::R => Some(0x52),
        Key::S => Some(0x53),
        Key::T => Some(0x54),
        Key::U => Some(0x55),
        Key::V => Some(0x56),
        Key::W => Some(0x57),
        Key::X => Some(0x58),
        Key::Y => Some(0x59),
        Key::Z => Some(0x5a),
        Key::F1 => Some(0x70),
        Key::F2 => Some(0x71),
        Key::F3 => Some(0x72),
        Key::F4 => Some(0x73),
        Key::F5 => Some(0x74),
        Key::F6 => Some(0x75),
        Key::F7 => Some(0x76),
        Key::F8 => Some(0x77),
        Key::F9 => Some(0x78),
        Key::F10 => Some(0x79),
        Key::F11 => Some(0x7a),
        Key::F12 => Some(0x7b),
        Key::F13 => Some(0x7c),
        Key::F14 => Some(0x7d),
        Key::F15 => Some(0x7e),
        Key::F16 => Some(0x7f),
        Key::F17 => Some(0x80),
        Key::F18 => Some(0x81),
        Key::F19 => Some(0x82),
        Key::F20 => Some(0x83),
        Key::F21 => Some(0x84),
        Key::F22 => Some(0x85),
        Key::F23 => Some(0x86),
        Key::F24 => Some(0x87),
        Key::Zero => Some(0x30),
        Key::One => Some(0x31),
        Key::Two => Some(0x32),
        Key::Three => Some(0x33),
        Key::Four => Some(0x34),
        Key::Five => Some(0x35),
        Key::Six => Some(0x36),
        Key::Seven => Some(0x37),
        Key::Eight => Some(0x38),
        Key::Nine => Some(0x39),
        Key::Escape => Some(0x1b),
        Key::Tab => Some(0x9),
        Key::CapsLock => Some(0x14),
        Key::LeftShift => Some(0xa0),
        Key::LeftControl => Some(0xa2),
        Key::LeftAlt => Some(0xa4),
        Key::LeftMeta => Some(0x5b),
        Key::Space => Some(0x20),
        Key::RightMeta => Some(0x5c),
        Key::RightAlt => Some(0xa5),
        Key::RightControl => Some(0xa3),
        Key::RightShift => Some(0xa1),
        Key::Enter => Some(0xd),
        Key::Backspace => Some(0x8),
        Key::Insert => Some(0x2d),
        Key::Delete => Some(0x2e),
        Key::Home => Some(0x24),
        Key::End => Some(0x23),
        Key::PageUp => Some(0x21),
        Key::PageDown => Some(0x22),
        Key::ArrowUp => Some(0x26),
        Key::ArrowDown => Some(0x28),
        Key::ArrowLeft => Some(0x25),
        Key::ArrowRight => Some(0x27),
        Key::NumLock => Some(0x90),
        Key::NumpadEqual => None,
        Key::NumpadDivide => Some(0x6f),
        Key::NumpadMultiply => Some(0x6a),
        Key::NumpadAdd => Some(0x6b),
        Key::NumpadEnter => Some(0xd),
        Key::NumpadDecimal => Some(0x6e),
        Key::Numpad0 => Some(0x60),
        Key::Numpad1 => Some(0x61),
        Key::Numpad2 => Some(0x62),
        Key::Numpad3 => Some(0x63),
        Key::Numpad4 => Some(0x64),
        Key::Numpad5 => Some(0x65),
        Key::Numpad6 => Some(0x66),
        Key::Numpad7 => Some(0x67),
        Key::Numpad8 => Some(0x68),
        Key::Numpad9 => Some(0x69),
        Key::VolumeUp => Some(0xaf),
        Key::VolumeDown => Some(0xae),
        Key::VolumeMute => Some(0xad),
        Key::MediaNext => Some(0xb0),
        Key::MediaPrevious => Some(0xb1),
        Key::MediaStop => Some(0xb2),
        Key::MediaPause => Some(0xb3),
    }
}

} // verus!
