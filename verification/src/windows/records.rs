//! Low-level input records, as the Windows `SendInput` primitive takes them.
//!
//! An [`InputRecord`] carries the field values of an `INPUT` structure — a
//! `KEYBDINPUT` or a `MOUSEINPUT` payload — so that the transport layer can
//! copy them into the OS structure one for one. The flag constants are the
//! OS's own.

use vstd::prelude::*;

use crate::button::Button;

verus! {

/// Keyboard flag: the event is a release (`KEYEVENTF_KEYUP`).
pub const KEYEVENTF_KEYUP: u32 = 0x2;

/// Keyboard flag: the scan field carries a UTF-16 code unit instead of a
/// virtual-key code (`KEYEVENTF_UNICODE`).
pub const KEYEVENTF_UNICODE: u32 = 0x4;

/// Mouse flag: the left button went down (`MOUSEEVENTF_LEFTDOWN`).
pub const MOUSEEVENTF_LEFTDOWN: u32 = 0x2;

/// Mouse flag: the left button went up (`MOUSEEVENTF_LEFTUP`).
pub const MOUSEEVENTF_LEFTUP: u32 = 0x4;

/// Mouse flag: the right button went down (`MOUSEEVENTF_RIGHTDOWN`).
pub const MOUSEEVENTF_RIGHTDOWN: u32 = 0x8;

/// Mouse flag: the right button went up (`MOUSEEVENTF_RIGHTUP`).
pub const MOUSEEVENTF_RIGHTUP: u32 = 0x10;

/// Mouse flag: the middle button went down (`MOUSEEVENTF_MIDDLEDOWN`).
pub const MOUSEEVENTF_MIDDLEDOWN: u32 = 0x20;

/// Mouse flag: the middle button went up (`MOUSEEVENTF_MIDDLEUP`).
pub const MOUSEEVENTF_MIDDLEUP: u32 = 0x40;

/// Mouse flag: an extra button went down (`MOUSEEVENTF_XDOWN`).
pub const MOUSEEVENTF_XDOWN: u32 = 0x80;

/// Mouse flag: an extra button went up (`MOUSEEVENTF_XUP`).
pub const MOUSEEVENTF_XUP: u32 = 0x100;

/// One low-level input record, flagged press or release, with its payload.
#[derive(Debug, Clone, Copy, PartialEq, Eq)]
pub enum InputRecord {
    /// A keyboard record: the field values of a `KEYBDINPUT`.
    Key {
        /// The virtual-key code; zero for a unicode record.
        vk: u16,
        /// The hardware scan value, or the UTF-16 code unit of a unicode
        /// record.
        scan: u16,
        /// Combination of the `KEYEVENTF_*` flags.
        flags: u32,
        /// The timestamp; zero lets the OS provide one.
        time: u32,
        /// Extra value associated with the record.
        extra: usize,
    },
    /// A mouse record: the field values of a `MOUSEINPUT`.
    Mouse {
        /// Pointer movement along x; zero for a button record.
        dx: i32,
        /// Pointer movement along y; zero for a button record.
        dy: i32,
        /// The extra-button index for `MOUSEEVENTF_XDOWN`/`MOUSEEVENTF_XUP`
        /// records, zero otherwise.
        data: u32,
        /// Combination of the `MOUSEEVENTF_*` flags.
        flags: u32,
        /// The timestamp; zero lets the OS provide one.
        time: u32,
        /// Extra value associated with the record.
        extra: usize,
    },
}

/// The keyboard record of one virtual-key action.
pub open spec fn key_record(vk: u16, press: bool) -> InputRecord {
    InputRecord::Key {
        vk,
        scan: 0,
        flags: if press {
            0
        } else {
            KEYEVENTF_KEYUP
        },
        time: 0,
        extra: 0,
    }
}

/// The keyboard record delivering one unicode code point, when the code
/// point fits the record's UTF-16 scan field; `None` otherwise.
pub open spec fn char_record(c: char, press: bool) -> Option<InputRecord> {
    if c as u32 <= 0xffff {
        Some(
            InputRecord::Key {
                vk: 0,
                scan: (c as u32) as u16,
                flags: if press {
                    KEYEVENTF_UNICODE
                } else {
                    KEYEVENTF_UNICODE | KEYEVENTF_KEYUP
                },
                time: 0,
                extra: 0,
            },
        )
    } else {
        None
    }
}

/// The mouse record of one button action.
pub open spec fn button_record(button: Button, press: bool) -> InputRecord {
    let flags = match button {
        Button::Left => if press {
            MOUSEEVENTF_LEFTDOWN
        } else {
            MOUSEEVENTF_LEFTUP
        },
        Button::Middle => if press {
            MOUSEEVENTF_MIDDLEDOWN
        } else {
            MOUSEEVENTF_MIDDLEUP
        },
        Button::Right => if press {
            MOUSEEVENTF_RIGHTDOWN
        } else {
            MOUSEEVENTF_RIGHTUP
        },
        Button::Extra(_) => if press {
            MOUSEEVENTF_XDOWN
        } else {
            MOUSEEVENTF_XUP
        },
    };
    let data = match button {
        Button::Extra(n) => n as u32,
        _ => 0,
    };
    InputRecord::Mouse { dx: 0, dy: 0, data, flags, time: 0, extra: 0 }
}

/// Creates an [`InputRecord`] that simulates a key press/release.
pub fn make_key_event(vk: u16, press: bool) -> (r: InputRecord)
    ensures
        r == key_record(vk, press),
{
    let flags: u32 = if press { 0 } else { KEYEVENTF_KEYUP };
    InputRecord::Key { vk, scan: 0, flags, time: 0, extra: 0 }
}

/// Creates an [`InputRecord`] that simulates a character being
/// pressed/released, when the character's code point can be represented.
pub fn make_char_event(c: char, press: bool) -> (r: Option<InputRecord>)
    ensures
        r == char_record(c, press),
{
    let code = c as u32;
    if code <= 0xffff {
        let flags: u32 = if press {
            KEYEVENTF_UNICODE
        } else {
            KEYEVENTF_UNICODE | KEYEVENTF_KEYUP
        };
        Some(InputRecord::Key { vk: 0, scan: code as u16, flags, time: 0, extra: 0 })
    } else {
        None
    }
}

/// Creates an [`InputRecord`] that simulates a mouse button being
/// pressed/released.
pub fn make_button_event(button: Button, press: bool) -> (r: InputRecord)
    ensures
        r == button_record(button, press),
{
    let mut data: u32 = 0;
    let flags: u32 = match button {
        Button::Left => if press {
            MOUSEEVENTF_LEFTDOWN
        } else {
            MOUSEEVENTF_LEFTUP
        },
        Button::Middle => if press {
            MOUSEEVENTF_MIDDLEDOWN
        } else {
            MOUSEEVENTF_MIDDLEUP
        },
        Button::Right => if press {
            MOUSEEVENTF_RIGHTDOWN
        } else {
            MOUSEEVENTF_RIGHTUP
        },
        Button::Extra(n) => {
            data = n as u32;
            if press {
                MOUSEEVENTF_XDOWN
            } else {
                MOUSEEVENTF_XUP
            }
        },
    };
    InputRecord::Mouse { dx: 0, dy: 0, data, flags, time: 0, extra: 0 }
}

} // verus!
