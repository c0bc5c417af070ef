//! The wire-level shape of the requests the X11 backend emits.
//!
//! An [`OpenDisplay`](super::display::OpenDisplay) records every request the
//! event-synthesis protocol issues as one of these values; a transport layer
//! replays each value as the matching Xlib call. The numeric constants are
//! the X protocol's own, so a record carries exactly the field values the
//! server expects on the wire.

use vstd::prelude::*;

verus! {

/// Event type code of a key press (`KeyPress`).
pub const KEY_PRESS: i32 = 2;

/// Event type code of a key release (`KeyRelease`).
pub const KEY_RELEASE: i32 = 3;

/// Event type code of a pointer-button press (`ButtonPress`).
pub const BUTTON_PRESS: i32 = 4;

/// Event type code of a pointer-button release (`ButtonRelease`).
pub const BUTTON_RELEASE: i32 = 5;

/// Event-mask bit selecting key presses (`KeyPressMask`).
pub const KEY_PRESS_MASK: i64 = 0x1;

/// Event-mask bit selecting key releases (`KeyReleaseMask`).
pub const KEY_RELEASE_MASK: i64 = 0x2;

/// Event-mask bit selecting button presses (`ButtonPressMask`).
pub const BUTTON_PRESS_MASK: i64 = 0x4;

/// Event-mask bit selecting button releases (`ButtonReleaseMask`).
pub const BUTTON_RELEASE_MASK: i64 = 0x8;

/// Modifier-state bit of the shift keys (`ShiftMask`).
pub const SHIFT_MASK: u32 = 0x1;

/// The timestamp that asks the server to substitute the current server time
/// (`CurrentTime`).
pub const CURRENT_TIME: u64 = 0;

/// A synthetic key event addressed to one window, with the field values of
/// the X11 `XKeyEvent` structure, together with the event mask under which
/// it is delivered.
#[derive(Debug, Clone, Copy, PartialEq, Eq)]
pub struct KeyEvent {
    /// Event type code: [`KEY_PRESS`] or [`KEY_RELEASE`].
    pub kind: i32,
    /// Serial number of the last request processed by the server.
    pub serial: u64,
    /// Whether the event was produced by a `SendEvent` request; always true
    /// for events this crate synthesizes.
    pub send_event: bool,
    /// The window the event is addressed to.
    pub window: u64,
    /// The root window of the screen the event occurred on.
    pub root: u64,
    /// The child window the pointer was in, if any.
    pub subwindow: u64,
    /// The time of the event; [`CURRENT_TIME`] lets the server fill it in.
    pub time: u64,
    /// Pointer x coordinate, relative to `window`.
    pub x: i32,
    /// Pointer y coordinate, relative to `window`.
    pub y: i32,
    /// Pointer x coordinate, relative to `root`.
    pub x_root: i32,
    /// Pointer y coordinate, relative to `root`.
    pub y_root: i32,
    /// The modifier state encoded in the event, e.g. [`SHIFT_MASK`].
    pub state: u32,
    /// The hardware key code the event reports.
    pub keycode: u32,
    /// Whether `window` and `root` are on the same screen.
    pub same_screen: bool,
    /// The event mask the delivery request selects on.
    pub mask: i64,
}

/// A synthetic pointer-button event addressed to one window, with the field
/// values of the X11 `XButtonEvent` structure, together with the event mask
/// under which it is delivered.
#[derive(Debug, Clone, Copy, PartialEq, Eq)]
pub struct ButtonEvent {
    /// Event type code: [`BUTTON_PRESS`] or [`BUTTON_RELEASE`].
    pub kind: i32,
    /// Serial number of the last request processed by the server.
    pub serial: u64,
    /// Whether the event was produced by a `SendEvent` request; always true
    /// for events this crate synthesizes.
    pub send_event: bool,
    /// The window the event is addressed to.
    pub window: u64,
    /// The root window of the screen the event occurred on.
    pub root: u64,
    /// The child window the pointer was in, if any.
    pub subwindow: u64,
    /// The time of the event; [`CURRENT_TIME`] lets the server fill it in.
    pub time: u64,
    /// Pointer x coordinate, relative to `window`.
    pub x: i32,
    /// Pointer y coordinate, relative to `window`.
    pub y: i32,
    /// Pointer x coordinate, relative to `root`.
    pub x_root: i32,
    /// Pointer y coordinate, relative to `root`.
    pub y_root: i32,
    /// The modifier state encoded in the event.
    pub state: u32,
    /// The pointer-button code the event reports.
    pub button: u32,
    /// Whether `window` and `root` are on the same screen.
    pub same_screen: bool,
    /// The event mask the delivery request selects on.
    pub mask: i64,
}

/// One request of the X11 backend, as the transport must replay it.
#[derive(Debug, Clone, Copy, PartialEq, Eq)]
pub enum Request {
    /// Hardware-level injection of a key event through the XTEST extension
    /// (`XTestFakeKeyEvent`).
    FakeKey {
        /// The hardware key code to inject.
        keycode: u32,
        /// True for a press, false for a release.
        press: bool,
        /// Milliseconds the server waits before processing the event.
        delay: u64,
    },
    /// Hardware-level injection of a pointer-button event through the XTEST
    /// extension (`XTestFakeButtonEvent`).
    FakeButton {
        /// The pointer-button code to inject.
        button: u32,
        /// True for a press, false for a release.
        press: bool,
        /// Milliseconds the server waits before processing the event.
        delay: u64,
    },
    /// Window-targeted delivery of a key event (`XSendEvent`).
    SendKey(KeyEvent),
    /// Window-targeted delivery of a pointer-button event (`XSendEvent`).
    SendButton(ButtonEvent),
    /// Forcing the connection's output buffer out to the server (`XFlush`).
    Flush,
}

/// The key event the backend addresses to `window`: a synthetic event marked
/// as such, timed by the server, carrying only the key code and the modifier
/// state, and delivered under the mask that matches its type.
pub open spec fn key_event(window: u64, keycode: u32, state: u32, press: bool) -> KeyEvent {
    KeyEvent {
        kind: if press { KEY_PRESS } else { KEY_RELEASE },
        serial: 0,
        send_event: true,
        window,
        root: 0,
        subwindow: 0,
        time: CURRENT_TIME,
        x: 0,
        y: 0,
        x_root: 0,
        y_root: 0,
        state,
        keycode,
        same_screen: true,
        mask: if press { KEY_PRESS_MASK } else { KEY_RELEASE_MASK },
    }
}

/// The pointer-button event the backend addresses to `window`, analogous to
/// [`key_event`].
pub open spec fn button_event(window: u64, button: u32, press: bool) -> ButtonEvent {
    ButtonEvent {
        kind: if press { BUTTON_PRESS } else { BUTTON_RELEASE },
        serial: 0,
        send_event: true,
        window,
        root: 0,
        subwindow: 0,
        time: CURRENT_TIME,
        x: 0,
        y: 0,
        x_root: 0,
        y_root: 0,
        state: 0,
        button,
        same_screen: true,
        mask: if press { BUTTON_PRESS_MASK } else { BUTTON_RELEASE_MASK },
    }
}

} // verus!
