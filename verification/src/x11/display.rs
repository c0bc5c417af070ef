//! An in-memory model of an open connection to the X display server.
//!
//! [`OpenDisplay`] stands for the live connection the transport layer owns:
//! it holds what the event-synthesis protocol reads from the server — the
//! XTEST capability, the keyboard mapping, the focused window — and records
//! every request the protocol issues in a log, in issue order. A transport
//! keeps these fields in sync with the real server and replays the log; a
//! test injects a fake server state and inspects the log.

use vstd::prelude::*;

use super::error::Error;
use super::wire::{button_event, key_event, Request};

verus! {

/// The abstract state of an [`OpenDisplay`].
pub ghost struct DisplayView {
    /// Whether the server supports the XTEST extension.
    pub xtest: bool,
    /// The server's keyboard mapping: which hardware key code, if any, each
    /// key symbol resolves to. Earlier entries shadow later ones.
    pub keymap: Seq<(u64, u8)>,
    /// The window holding the input focus; `None` models a server whose
    /// focus query fails.
    pub focus: Option<u64>,
    /// Every request issued so far, in issue order.
    pub log: Seq<Request>,
}

impl DisplayView {
    /// True when `other` talks to the same server state: only the request
    /// log may differ.
    pub open spec fn same_server(self, other: DisplayView) -> bool {
        &&& other.xtest == self.xtest
        &&& other.keymap == self.keymap
        &&& other.focus == self.focus
    }
}

/// The hardware key code the mapping assigns to a key symbol: the code of
/// the first entry for the symbol, or `None` when no entry exists.
pub open spec fn resolve(keymap: Seq<(u64, u8)>, keysym: u64) -> Option<u8>
    decreases keymap.len(),
{
    if keymap.len() == 0 {
        None
    } else if keymap[0].0 == keysym {
        Some(keymap[0].1)
    } else {
        resolve(keymap.drop_first(), keysym)
    }
}

/// What a focus query returns: the focused window, or [`Error::Unexpected`]
/// when the server's reply indicates failure.
pub open spec fn focus_reply(focus: Option<u64>) -> Result<u64, Error> {
    match focus {
        Some(window) => Ok(window),
        None => Err(Error::Unexpected),
    }
}

/// An open connection with the X server, modelled in memory.
pub struct OpenDisplay {
    supports_xtest: bool,
    keymap: Vec<(u64, u8)>,
    focus: Option<u64>,
    log: Vec<Request>,
}

impl View for OpenDisplay {
    type V = DisplayView;

    closed spec fn view(&self) -> DisplayView {
        DisplayView {
            xtest: self.supports_xtest,
            keymap: self.keymap@,
            focus: self.focus,
            log: self.log@,
        }
    }
}

impl OpenDisplay {
    /// A fresh connection to a server with an empty keyboard mapping, no
    /// focused window, and nothing issued yet.
    pub fn new(supports_xtest: bool) -> (d: Self)
        ensures
            d@.xtest == supports_xtest,
            d@.keymap.len() == 0,
            d@.focus is None,
            d@.log.len() == 0,
    {
        OpenDisplay { supports_xtest, keymap: Vec::new(), focus: None, log: Vec::new() }
    }

    /// Appends one entry to the server's keyboard mapping.
    pub fn map_key(&mut self, keysym: u64, keycode: u8)
        ensures
            final(self)@.xtest == old(self)@.xtest,
            final(self)@.keymap == old(self)@.keymap.push((keysym, keycode)),
            final(self)@.focus == old(self)@.focus,
            final(self)@.log == old(self)@.log,
    {
        self.keymap.push((keysym, keycode));
    }

    /// Makes `window` the holder of the input focus.
    pub fn set_focus(&mut self, window: u64)
        ensures
            final(self)@.xtest == old(self)@.xtest,
            final(self)@.keymap == old(self)@.keymap,
            final(self)@.focus == Some(window),
            final(self)@.log == old(self)@.log,
    {
        self.focus = Some(window);
    }

    /// Models a server on which the focus query fails.
    pub fn clear_focus(&mut self)
        ensures
            final(self)@.xtest == old(self)@.xtest,
            final(self)@.keymap == old(self)@.keymap,
            final(self)@.focus is None,
            final(self)@.log == old(self)@.log,
    {
        self.focus = None;
    }

    /// Whether the server supports the XTEST extension. Absence is a valid,
    /// expected outcome, so this never fails.
    pub fn xtest_query_extension(&self) -> (r: bool)
        ensures
            r == self@.xtest,
    {
        self.supports_xtest
    }

    /// Resolves a key symbol to a hardware key code through the server's
    /// active keyboard mapping; `None` when the mapping has no entry, never
    /// a fabricated code.
    pub fn keysym_to_keycode(&self, keysym: u64) -> (r: Option<u8>)
        ensures
            r == resolve(self@.keymap, keysym),
    {
        let mut i: usize = 0;
        proof {
            assert(self.keymap@.skip(0) =~= self.keymap@);
        }
        while i < self.keymap.len()
            invariant
                i <= self.keymap@.len(),
                resolve(self@.keymap, keysym) == resolve(self.keymap@.skip(i as int), keysym),
            decreases self.keymap@.len() - i,
        {
            let (sym, code) = self.keymap[i];
            if sym == keysym {
                return Some(code);
            }
            proof {
                assert(self.keymap@.skip(i as int).drop_first() =~= self.keymap@.skip(
                    i as int + 1,
                ));
            }
            i += 1;
        }
        None
    }

    /// Queries the window currently holding the input focus; fails with
    /// [`Error::Unexpected`] when the server's reply indicates failure.
    pub fn get_input_focus(&self) -> (r: Result<u64, Error>)
        ensures
            r == focus_reply(self@.focus),
    {
        match self.focus {
            Some(window) => Ok(window),
            None => Err(Error::Unexpected),
        }
    }

    /// Issues a synthetic key event addressed to `window`, marked as sent by
    /// a client.
    pub fn send_key_event(&mut self, window: u64, keycode: u32, state: u32, press: bool)
        ensures
            old(self)@.same_server(final(self)@),
            final(self)@.log == old(self)@.log.push(
                Request::SendKey(key_event(window, keycode, state, press)),
            ),
    {
        let kind: i32 = if press { super::wire::KEY_PRESS } else { super::wire::KEY_RELEASE };
        let mask: i64 = if press {
            super::wire::KEY_PRESS_MASK
        } else {
            super::wire::KEY_RELEASE_MASK
        };
        self.log.push(
            Request::SendKey(
                super::wire::KeyEvent {
                    kind,
                    serial: 0,
                    send_event: true,
                    window,
                    root: 0,
                    subwindow: 0,
                    time: super::wire::CURRENT_TIME,
                    x: 0,
                    y: 0,
                    x_root: 0,
                    y_root: 0,
                    state,
                    keycode,
                    same_screen: true,
                    mask,
                },
            ),
        );
    }

    /// Issues a synthetic pointer-button event addressed to `window`, marked
    /// as sent by a client.
    pub fn send_button_event(&mut self, window: u64, button: u32, press: bool)
        ensures
            old(self)@.same_server(final(self)@),
            final(self)@.log == old(self)@.log.push(
                Request::SendButton(button_event(window, button, press)),
            ),
    {
        let kind: i32 = if press {
            super::wire::BUTTON_PRESS
        } else {
            super::wire::BUTTON_RELEASE
        };
        let mask: i64 = if press {
            super::wire::BUTTON_PRESS_MASK
        } else {
            super::wire::BUTTON_RELEASE_MASK
        };
        self.log.push(
            Request::SendButton(
                super::wire::ButtonEvent {
                    kind,
                    serial: 0,
                    send_event: true,
                    window,
                    root: 0,
                    subwindow: 0,
                    time: super::wire::CURRENT_TIME,
                    x: 0,
                    y: 0,
                    x_root: 0,
                    y_root: 0,
                    state: 0,
                    button,
                    same_screen: true,
                    mask,
                },
            ),
        );
    }

    /// Issues a hardware-level key event through the XTEST extension.
    pub fn xtest_fake_key_event(&mut self, keycode: u32, press: bool, delay: u64)
        ensures
            old(self)@.same_server(final(self)@),
            final(self)@.log == old(self)@.log.push(
                Request::FakeKey { keycode, press, delay },
            ),
    {
        self.log.push(Request::FakeKey { keycode, press, delay });
    }

    /// Issues a hardware-level pointer-button event through the XTEST
    /// extension.
    pub fn xtest_fake_button_event(&mut self, button: u32, press: bool, delay: u64)
        ensures
            old(self)@.same_server(final(self)@),
            final(self)@.log == old(self)@.log.push(
                Request::FakeButton { button, press, delay },
            ),
    {
        self.log.push(Request::FakeButton { button, press, delay });
    }

    /// Forces the buffered requests out to the server.
    pub fn flush(&mut self)
        ensures
            old(self)@.same_server(final(self)@),
            final(self)@.log == old(self)@.log.push(Request::Flush),
    {
        self.log.push(Request::Flush);
    }

    /// The requests issued so far, in issue order.
    pub fn requests(&self) -> (r: &Vec<Request>)
        ensures
            r@ == self@.log,
    {
        &self.log
    }

    /// Hands out the requests issued so far and empties the log, so that a
    /// transport can replay each batch exactly once.
    pub fn take_requests(&mut self) -> (r: Vec<Request>)
        ensures
            old(self)@.same_server(final(self)@),
            r@ == old(self)@.log,
            final(self)@.log.len() == 0,
    {
        let mut taken: Vec<Request> = Vec::new();
        core::mem::swap(&mut taken, &mut self.log);
        taken
    }
}

} // verus!
