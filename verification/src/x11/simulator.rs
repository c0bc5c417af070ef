//! The event-synthesis protocol of the X11 backend.
//!
//! The delivery path is chosen once, when the simulator is created: with the
//! XTEST extension every action is injected at the hardware level; without
//! it the simulator resolves the focused window on every call and addresses
//! synthetic events to it. The `*_wire` spec functions below state, request
//! for request, what every action puts on the wire.

use vstd::prelude::*;
use vstd::string::StrSliceExecFns;

use crate::button::Button;
use crate::key::Key;
use super::codes::{
    button_keycode, button_to_x11, char_keysym, char_to_x11, key_keysym, key_to_x11, XK_SHIFT_L,
};
use super::display::{resolve, DisplayView, OpenDisplay};
use super::error::Error;
use super::wire::{button_event, key_event, Request, SHIFT_MASK};

verus! {

/// The hardware-level requests of one key action: a press, a release, or
/// both in press-then-release order.
pub open spec fn fake_key_requests(keycode: u32, down: bool, up: bool) -> Seq<Request> {
    let press = Request::FakeKey { keycode, press: true, delay: 0 };
    let release = Request::FakeKey { keycode, press: false, delay: 0 };
    if down && up {
        seq![press, release]
    } else if down {
        seq![press]
    } else {
        seq![release]
    }
}

/// The window-targeted requests of one key action.
pub open spec fn sent_key_requests(
    window: u64,
    keycode: u32,
    state: u32,
    down: bool,
    up: bool,
) -> Seq<Request> {
    let press = Request::SendKey(key_event(window, keycode, state, true));
    let release = Request::SendKey(key_event(window, keycode, state, false));
    if down && up {
        seq![press, release]
    } else if down {
        seq![press]
    } else {
        seq![release]
    }
}

/// The hardware-level requests of one button action.
pub open spec fn fake_button_requests(button: u32, down: bool, up: bool) -> Seq<Request> {
    let press = Request::FakeButton { button, press: true, delay: 0 };
    let release = Request::FakeButton { button, press: false, delay: 0 };
    if down && up {
        seq![press, release]
    } else if down {
        seq![press]
    } else {
        seq![release]
    }
}

/// The window-targeted requests of one button action.
pub open spec fn sent_button_requests(window: u64, button: u32, down: bool, up: bool) -> Seq<
    Request,
> {
    let press = Request::SendButton(button_event(window, button, true));
    let release = Request::SendButton(button_event(window, button, false));
    if down && up {
        seq![press, release]
    } else if down {
        seq![press]
    } else {
        seq![release]
    }
}

/// Outcome of a key action: either the error that aborted it before anything
/// was sent, or the requests it appends to the wire, flush included.
pub open spec fn key_wire(d: DisplayView, xtest: bool, key: Key, down: bool, up: bool) -> (
    Result<(), Error>,
    Seq<Request>,
) {
    match resolve(d.keymap, key_keysym(key)) {
        None => (Err(Error::UnsupportedKey(key)), Seq::empty()),
        Some(code) => if xtest {
            (Ok(()), fake_key_requests(code as u32, down, up).push(Request::Flush))
        } else {
            match d.focus {
                None => (Err(Error::Unexpected), Seq::empty()),
                Some(window) => (
                    Ok(()),
                    sent_key_requests(window, code as u32, 0, down, up).push(Request::Flush),
                ),
            }
        },
    }
}

/// Outcome of a button action, analogous to [`key_wire`]. A button never
/// needs resolution, so only a failing focus query can abort it.
pub open spec fn button_wire(d: DisplayView, xtest: bool, button: Button, down: bool, up: bool) -> (
    Result<(), Error>,
    Seq<Request>,
) {
    if xtest {
        (Ok(()), fake_button_requests(button_keycode(button), down, up).push(Request::Flush))
    } else {
        match d.focus {
            None => (Err(Error::Unexpected), Seq::empty()),
            Some(window) => (
                Ok(()),
                sent_button_requests(window, button_keycode(button), down, up).push(
                    Request::Flush,
                ),
            ),
        }
    }
}

/// Outcome of one character on the hardware-injection path, without the
/// flush: a shifted character is bracketed by a shift press before and a
/// shift release after its own press/release pair.
pub open spec fn char_wire_xtest(keymap: Seq<(u64, u8)>, c: char) -> (
    Result<(), Error>,
    Seq<Request>,
) {
    match char_keysym(c) {
        None => (Err(Error::UnsupportedChar(c)), Seq::empty()),
        Some((keysym, shift)) => match resolve(keymap, keysym) {
            None => (Err(Error::UnsupportedChar(c)), Seq::empty()),
            Some(code) => if shift {
                match resolve(keymap, XK_SHIFT_L) {
                    None => (Err(Error::UnsupportedChar(c)), Seq::empty()),
                    Some(shift_code) => (
                        Ok(()),
                        seq![
                            Request::FakeKey { keycode: shift_code as u32, press: true, delay: 0 },
                            Request::FakeKey { keycode: code as u32, press: true, delay: 0 },
                            Request::FakeKey { keycode: code as u32, press: false, delay: 0 },
                            Request::FakeKey {
                                keycode: shift_code as u32,
                                press: false,
                                delay: 0,
                            },
                        ],
                    ),
                }
            } else {
                (
                    Ok(()),
                    seq![
                        Request::FakeKey { keycode: code as u32, press: true, delay: 0 },
                        Request::FakeKey { keycode: code as u32, press: false, delay: 0 },
                    ],
                )
            },
        },
    }
}

/// Outcome of one character on the window-targeted path, without the flush:
/// the shift requirement is encoded in the modifier state of a single
/// press/release pair, not as extra shift-key events.
pub open spec fn char_wire_window(keymap: Seq<(u64, u8)>, window: u64, c: char) -> (
    Result<(), Error>,
    Seq<Request>,
) {
    match char_keysym(c) {
        None => (Err(Error::UnsupportedChar(c)), Seq::empty()),
        Some((keysym, shift)) => match resolve(keymap, keysym) {
            None => (Err(Error::UnsupportedChar(c)), Seq::empty()),
            Some(code) => {
                let state = if shift {
                    SHIFT_MASK
                } else {
                    0
                };
                (
                    Ok(()),
                    seq![
                        Request::SendKey(key_event(window, code as u32, state, true)),
                        Request::SendKey(key_event(window, code as u32, state, false)),
                    ],
                )
            },
        },
    }
}

/// Outcome of one whole character action, flush included.
pub open spec fn send_char_wire(d: DisplayView, xtest: bool, c: char) -> (
    Result<(), Error>,
    Seq<Request>,
) {
    if xtest {
        let (res, reqs) = char_wire_xtest(d.keymap, c);
        if res is Ok {
            (res, reqs.push(Request::Flush))
        } else {
            (res, reqs)
        }
    } else {
        match d.focus {
            None => (Err(Error::Unexpected), Seq::empty()),
            Some(window) => {
                let (res, reqs) = char_wire_window(d.keymap, window, c);
                if res is Ok {
                    (res, reqs.push(Request::Flush))
                } else {
                    (res, reqs)
                }
            },
        }
    }
}

/// The log after typing `chars` one at a time on the hardware-injection
/// path, starting from `log`: the first unsupported character aborts the
/// rest and is reported, and what was already sent stays sent.
pub open spec fn type_chars_xtest(
    keymap: Seq<(u64, u8)>,
    log: Seq<Request>,
    chars: Seq<char>,
) -> (Result<(), Error>, Seq<Request>)
    decreases chars.len(),
{
    if chars.len() == 0 {
        (Ok(()), log)
    } else {
        let (res, reqs) = char_wire_xtest(keymap, chars[0]);
        if res is Ok {
            type_chars_xtest(keymap, log + reqs, chars.drop_first())
        } else {
            (res, log)
        }
    }
}

/// The log after typing `chars` one at a time on the window-targeted path,
/// all addressed to the window that held the focus when the action began.
pub open spec fn type_chars_window(
    keymap: Seq<(u64, u8)>,
    window: u64,
    log: Seq<Request>,
    chars: Seq<char>,
) -> (Result<(), Error>, Seq<Request>)
    decreases chars.len(),
{
    if chars.len() == 0 {
        (Ok(()), log)
    } else {
        let (res, reqs) = char_wire_window(keymap, window, chars[0]);
        if res is Ok {
            type_chars_window(keymap, window, log + reqs, chars.drop_first())
        } else {
            (res, log)
        }
    }
}

/// Outcome of a whole character-sequence action: the resulting log, with one
/// flush for the whole sequence when every character went through, and none
/// when the sequence was aborted.
pub open spec fn send_chars_wire(d: DisplayView, xtest: bool, chars: Seq<char>) -> (
    Result<(), Error>,
    Seq<Request>,
) {
    if xtest {
        let (res, log) = type_chars_xtest(d.keymap, d.log, chars);
        if res is Ok {
            (res, log.push(Request::Flush))
        } else {
            (res, log)
        }
    } else {
        match d.focus {
            None => (Err(Error::Unexpected), d.log),
            Some(window) => {
                let (res, log) = type_chars_window(d.keymap, window, d.log, chars);
                if res is Ok {
                    (res, log.push(Request::Flush))
                } else {
                    (res, log)
                }
            },
        }
    }
}

/// True when an action turned `pre` into `post` by appending exactly `reqs`
/// to the wire: the server model is untouched and the delivery path is
/// unchanged.
pub open spec fn emits(pre: Simulator, post: Simulator, reqs: Seq<Request>) -> bool {
    &&& post.supports_xtest == pre.supports_xtest
    &&& pre.display@.same_server(post.display@)
    &&& post.display@.log == pre.display@.log + reqs
}

/// The simulator used when using the X11 window manager.
pub struct Simulator {
    /// The display that's being used to simulate keystrokes.
    pub display: OpenDisplay,
    /// Whether the current X11 server supports the "XTEST" extension.
    ///
    /// The XTEST extension is prefered because events that are sent through
    /// it cannot be distinguished from regular user events.
    pub supports_xtest: bool,
}

impl Simulator {
    /// Creates a new [`Simulator`] instance over an open display connection,
    /// negotiating the delivery path once.
    pub fn new(display: OpenDisplay) -> (s: Self)
        ensures
            s.display@ == display@,
            s.supports_xtest == display@.xtest,
    {
        let supports_xtest = display.xtest_query_extension();
        Simulator { display, supports_xtest }
    }

    /// Sends a fake key press event to the top-level window.
    pub fn press_key(&mut self, key: Key) -> (r: Result<(), Error>)
        ensures
            ({
                let (res, reqs) = key_wire(
                    old(self).display@,
                    old(self).supports_xtest,
                    key,
                    true,
                    false,
                );
                r == res && emits(*old(self), *final(self), reqs)
            }),
    {
        self.key_action(key, true, false)
    }

    /// Sends a fake key release event to the top-level window.
    pub fn release_key(&mut self, key: Key) -> (r: Result<(), Error>)
        ensures
            ({
                let (res, reqs) = key_wire(
                    old(self).display@,
                    old(self).supports_xtest,
                    key,
                    false,
                    true,
                );
                r == res && emits(*old(self), *final(self), reqs)
            }),
    {
        self.key_action(key, false, true)
    }

    /// Sends a fake keystroke event to the top-level window: a press
    /// immediately followed by a release, flushed together.
    pub fn send_key(&mut self, key: Key) -> (r: Result<(), Error>)
        ensures
            ({
                let (res, reqs) = key_wire(
                    old(self).display@,
                    old(self).supports_xtest,
                    key,
                    true,
                    true,
                );
                r == res && emits(*old(self), *final(self), reqs)
            }),
    {
        self.key_action(key, true, true)
    }

    /// Delivers a key action on the path chosen at construction.
    fn key_action(&mut self, key: Key, down: bool, up: bool) -> (r: Result<(), Error>)
        requires
            down || up,
        ensures
            ({
                let (res, reqs) = key_wire(
                    old(self).display@,
                    old(self).supports_xtest,
                    key,
                    down,
                    up,
                );
                r == res && emits(*old(self), *final(self), reqs)
            }),
    {
        let keycode = match self.display.keysym_to_keycode(key_to_x11(key)) {
            Some(code) => code,
            None => {
                proof {
                    assert(self.display@.log =~= self.display@.log + Seq::<Request>::empty());
                }
                return Err(Error::UnsupportedKey(key));
            },
        };

        if self.supports_xtest {
            if down {
                self.display.xtest_fake_key_event(keycode as u32, true, 0);
            }
            if up {
                self.display.xtest_fake_key_event(keycode as u32, false, 0);
            }
        } else {
            let window = match self.display.get_input_focus() {
                Ok(window) => window,
                Err(e) => {
                    proof {
                        assert(self.display@.log =~= self.display@.log + Seq::<Request>::empty());
                    }
                    return Err(e);
                },
            };
            if down {
                self.display.send_key_event(window, keycode as u32, 0, true);
            }
            if up {
                self.display.send_key_event(window, keycode as u32, 0, false);
            }
        }
        self.display.flush();
        proof {
            let (res, reqs) = key_wire(old(self).display@, old(self).supports_xtest, key, down, up);
            assert(self.display@.log =~= old(self).display@.log + reqs);
        }
        Ok(())
    }

    /// Sends a fake button press to the top-level window.
    pub fn press_button(&mut self, button: Button) -> (r: Result<(), Error>)
        ensures
            ({
                let (res, reqs) = button_wire(
                    old(self).display@,
                    old(self).supports_xtest,
                    button,
                    true,
                    false,
                );
                r == res && emits(*old(self), *final(self), reqs)
            }),
    {
        self.button_action(button, true, false)
    }

    /// Sends a fake button release to the top-level window.
    pub fn release_button(&mut self, button: Button) -> (r: Result<(), Error>)
        ensures
            ({
                let (res, reqs) = button_wire(
                    old(self).display@,
                    old(self).supports_xtest,
                    button,
                    false,
                    true,
                );
                r == res && emits(*old(self), *final(self), reqs)
            }),
    {
        self.button_action(button, false, true)
    }

    /// Sends a fake button click to the top-level window: a press
    /// immediately followed by a release, flushed together.
    pub fn send_button(&mut self, button: Button) -> (r: Result<(), Error>)
        ensures
            ({
                let (res, reqs) = button_wire(
                    old(self).display@,
                    old(self).supports_xtest,
                    button,
                    true,
                    true,
                );
                r == res && emits(*old(self), *final(self), reqs)
            }),
    {
        self.button_action(button, true, true)
    }

    /// Delivers a button action on the path chosen at construction.
    fn button_action(&mut self, button: Button, down: bool, up: bool) -> (r: Result<(), Error>)
        requires
            down || up,
        ensures
            ({
                let (res, reqs) = button_wire(
                    old(self).display@,
                    old(self).supports_xtest,
                    button,
                    down,
                    up,
                );
                r == res && emits(*old(self), *final(self), reqs)
            }),
    {
        let code = button_to_x11(button);

        if self.supports_xtest {
            if down {
                self.display.xtest_fake_button_event(code, true, 0);
            }
            if up {
                self.display.xtest_fake_button_event(code, false, 0);
            }
        } else {
            let window = match self.display.get_input_focus() {
                Ok(window) => window,
                Err(e) => {
                    proof {
                        assert(self.display@.log =~= self.display@.log + Seq::<Request>::empty());
                    }
                    return Err(e);
                },
            };
            if down {
                self.display.send_button_event(window, code, true);
            }
            if up {
                self.display.send_button_event(window, code, false);
            }
        }
        self.display.flush();
        proof {
            let (res, reqs) = button_wire(
                old(self).display@,
                old(self).supports_xtest,
                button,
                down,
                up,
            );
            assert(self.display@.log =~= old(self).display@.log + reqs);
        }
        Ok(())
    }

    /// Sends a unicode code-point using the "XTEST" extension. The flush is
    /// left to the caller.
    fn send_char_xtest(&mut self, c: char) -> (r: Result<(), Error>)
        ensures
            ({
                let (res, reqs) = char_wire_xtest(old(self).display@.keymap, c);
                r == res && emits(*old(self), *final(self), reqs)
            }),
    {
        let (keysym, shift) = match char_to_x11(c) {
            Some(pair) => pair,
            None => {
                proof {
                    assert(self.display@.log =~= self.display@.log + Seq::<Request>::empty());
                }
                return Err(Error::UnsupportedChar(c));
            },
        };

        let keycode = match self.display.keysym_to_keycode(keysym) {
            Some(code) => code,
            None => {
                proof {
                    assert(self.display@.log =~= self.display@.log + Seq::<Request>::empty());
                }
                return Err(Error::UnsupportedChar(c));
            },
        };

        if shift {
            let shift_keycode = match self.display.keysym_to_keycode(XK_SHIFT_L) {
                Some(code) => code,
                None => {
                    proof {
                        assert(self.display@.log =~= self.display@.log + Seq::<
                            Request,
                        >::empty());
                    }
                    return Err(Error::UnsupportedChar(c));
                },
            };
            self.display.xtest_fake_key_event(shift_keycode as u32, true, 0);
            self.display.xtest_fake_key_event(keycode as u32, true, 0);
            self.display.xtest_fake_key_event(keycode as u32, false, 0);
            self.display.xtest_fake_key_event(shift_keycode as u32, false, 0);
            proof {
                let (res, reqs) = char_wire_xtest(old(self).display@.keymap, c);
                assert(self.display@.log =~= old(self).display@.log + reqs);
            }
        } else {
            self.display.xtest_fake_key_event(keycode as u32, true, 0);
            self.display.xtest_fake_key_event(keycode as u32, false, 0);
            proof {
                let (res, reqs) = char_wire_xtest(old(self).display@.keymap, c);
                assert(self.display@.log =~= old(self).display@.log + reqs);
            }
        }

        Ok(())
    }

    /// Sends a unicode code-point as a synthetic event pair addressed to
    /// `window`, with the shift requirement encoded in the modifier state.
    /// The flush is left to the caller.
    fn send_char_window(&mut self, window: u64, c: char) -> (r: Result<(), Error>)
        ensures
            ({
                let (res, reqs) = char_wire_window(old(self).display@.keymap, window, c);
                r == res && emits(*old(self), *final(self), reqs)
            }),
    {
        let (keysym, shift) = match char_to_x11(c) {
            Some(pair) => pair,
            None => {
                proof {
                    assert(self.display@.log =~= self.display@.log + Seq::<Request>::empty());
                }
                return Err(Error::UnsupportedChar(c));
            },
        };

        let keycode = match self.display.keysym_to_keycode(keysym) {
            Some(code) => code,
            None => {
                proof {
                    assert(self.display@.log =~= self.display@.log + Seq::<Request>::empty());
                }
                return Err(Error::UnsupportedChar(c));
            },
        };

        let state: u32 = if shift { SHIFT_MASK } else { 0 };
        self.display.send_key_event(window, keycode as u32, state, true);
        self.display.send_key_event(window, keycode as u32, state, false);
        proof {
            let (res, reqs) = char_wire_window(old(self).display@.keymap, window, c);
            assert(self.display@.log =~= old(self).display@.log + reqs);
        }
        Ok(())
    }

    /// Sends a specific unicode code-point.
    pub fn send_char(&mut self, c: char) -> (r: Result<(), Error>)
        ensures
            final(self).supports_xtest == old(self).supports_xtest,
            old(self).display@.same_server(final(self).display@),
            ({
                let (res, reqs) = send_char_wire(old(self).display@, old(self).supports_xtest, c);
                r == res && final(self).display@.log == old(self).display@.log + reqs
            }),
    {
        if self.supports_xtest {
            match self.send_char_xtest(c) {
                Ok(()) => {},
                Err(e) => {
                    return Err(e);
                },
            }
        } else {
            let window = match self.display.get_input_focus() {
                Ok(window) => window,
                Err(e) => {
                    proof {
                        assert(self.display@.log =~= self.display@.log + Seq::<Request>::empty());
                    }
                    return Err(e);
                },
            };
            match self.send_char_window(window, c) {
                Ok(()) => {},
                Err(e) => {
                    return Err(e);
                },
            }
        }
        self.display.flush();
        proof {
            let (res, reqs) = send_char_wire(old(self).display@, old(self).supports_xtest, c);
            assert(self.display@.log =~= old(self).display@.log + reqs);
        }
        Ok(())
    }

    /// Sends a collection of characters, one at a time, in order, with one
    /// flush for the whole sequence. The first unsupported character aborts
    /// the rest; what was already sent stays sent.
    #[verifier::loop_isolation(false)]
    pub fn send_chars(&mut self, chars: &Vec<char>) -> (r: Result<(), Error>)
        ensures
            final(self).supports_xtest == old(self).supports_xtest,
            old(self).display@.same_server(final(self).display@),
            ({
                let (res, log) = send_chars_wire(
                    old(self).display@,
                    old(self).supports_xtest,
                    chars@,
                );
                r == res && final(self).display@.log == log
            }),
    {
        if self.supports_xtest {
            let mut i: usize = 0;
            proof {
                assert(chars@.skip(0) =~= chars@);
            }
            while i < chars.len()
                invariant
                    i <= chars@.len(),
                    self.supports_xtest == old(self).supports_xtest,
                    old(self).display@.same_server(self.display@),
                    type_chars_xtest(old(self).display@.keymap, old(self).display@.log, chars@)
                        == type_chars_xtest(
                        old(self).display@.keymap,
                        self.display@.log,
                        chars@.skip(i as int),
                    ),
                decreases chars@.len() - i,
            {
                proof {
                    assert(chars@.skip(i as int).drop_first() =~= chars@.skip(i as int + 1));
                    assert(chars@.skip(i as int)[0] == chars@[i as int]);
                }
                let ghost pre_log = self.display@.log;
                match self.send_char_xtest(chars[i]) {
                    Ok(()) => {},
                    Err(e) => {
                        proof {
                            assert(self.display@.log =~= pre_log);
                        }
                        return Err(e);
                    },
                }
                i += 1;
            }
            proof {
                assert(chars@.skip(chars@.len() as int) =~= Seq::<char>::empty());
            }
        } else {
            let window = match self.display.get_input_focus() {
                Ok(window) => window,
                Err(e) => {
                    return Err(e);
                },
            };
            let mut i: usize = 0;
            proof {
                assert(chars@.skip(0) =~= chars@);
            }
            while i < chars.len()
                invariant
                    i <= chars@.len(),
                    self.supports_xtest == old(self).supports_xtest,
                    old(self).display@.same_server(self.display@),
                    type_chars_window(
                        old(self).display@.keymap,
                        window,
                        old(self).display@.log,
                        chars@,
                    ) == type_chars_window(
                        old(self).display@.keymap,
                        window,
                        self.display@.log,
                        chars@.skip(i as int),
                    ),
                decreases chars@.len() - i,
            {
                proof {
                    assert(chars@.skip(i as int).drop_first() =~= chars@.skip(i as int + 1));
                    assert(chars@.skip(i as int)[0] == chars@[i as int]);
                }
                let ghost pre_log = self.display@.log;
                match self.send_char_window(window, chars[i]) {
                    Ok(()) => {},
                    Err(e) => {
                        proof {
                            assert(self.display@.log =~= pre_log);
                        }
                        return Err(e);
                    },
                }
                i += 1;
            }
            proof {
                assert(chars@.skip(chars@.len() as int) =~= Seq::<char>::empty());
            }
        }
        self.display.flush();
        Ok(())
    }

    /// Sends a string: its characters in encoding order, as one sequence.
    #[verifier::loop_isolation(false)]
    pub fn send_str(&mut self, s: &str) -> (r: Result<(), Error>)
        ensures
            final(self).supports_xtest == old(self).supports_xtest,
            old(self).display@.same_server(final(self).display@),
            ({
                let (res, log) = send_chars_wire(old(self).display@, old(self).supports_xtest, s@);
                r == res && final(self).display@.log == log
            }),
    {
        let n = s.unicode_len();
        let mut chars: Vec<char> = Vec::new();
        let mut i: usize = 0;
        while i < n
            invariant
                i <= n,
                n == s@.len(),
                chars@ == s@.take(i as int),
            decreases n - i,
        {
            let c = s.get_char(i);
            chars.push(c);
            proof {
                assert(s@.take(i as int).push(s@[i as int]) =~= s@.take(i as int + 1));
            }
            i += 1;
        }
        proof {
            assert(s@.take(n as int) =~= s@);
        }
        self.send_chars(&chars)
    }
}

/// A keystroke on the hardware-injection path puts exactly two low-level
/// events on the wire — the key's press, then its release, never the other
/// way around — followed by the one flush of the action.
pub proof fn lemma_keystroke_press_then_release(d: DisplayView, key: Key, code: u8)
    requires
        resolve(d.keymap, key_keysym(key)) == Some(code),
    ensures
        ({
            let (res, reqs) = key_wire(d, true, key, true, true);
            &&& res is Ok
            &&& reqs =~= seq![
                Request::FakeKey { keycode: code as u32, press: true, delay: 0 },
                Request::FakeKey { keycode: code as u32, press: false, delay: 0 },
                Request::Flush,
            ]
        }),
{
}

/// A character that needs the shift modifier, on the hardware-injection
/// path, is bracketed by shift events: shift-down before the character's
/// own press/release pair and shift-up after, in that strict order.
pub proof fn lemma_shifted_char_brackets_shift(
    keymap: Seq<(u64, u8)>,
    c: char,
    keysym: u64,
    code: u8,
    shift_code: u8,
)
    requires
        char_keysym(c) == Some((keysym, true)),
        resolve(keymap, keysym) == Some(code),
        resolve(keymap, XK_SHIFT_L) == Some(shift_code),
    ensures
        ({
            let (res, reqs) = char_wire_xtest(keymap, c);
            &&& res is Ok
            &&& reqs =~= seq![
                Request::FakeKey { keycode: shift_code as u32, press: true, delay: 0 },
                Request::FakeKey { keycode: code as u32, press: true, delay: 0 },
                Request::FakeKey { keycode: code as u32, press: false, delay: 0 },
                Request::FakeKey { keycode: shift_code as u32, press: false, delay: 0 },
            ]
        }),
{
}

/// The same shifted character, on the window-targeted path, is a single
/// press/release pair whose modifier state carries the shift flag — no
/// extra shift-key events at all.
pub proof fn lemma_shifted_char_window_modifier(
    keymap: Seq<(u64, u8)>,
    window: u64,
    c: char,
    keysym: u64,
    code: u8,
)
    requires
        char_keysym(c) == Some((keysym, true)),
        resolve(keymap, keysym) == Some(code),
    ensures
        ({
            let (res, reqs) = char_wire_window(keymap, window, c);
            &&& res is Ok
            &&& reqs =~= seq![
                Request::SendKey(key_event(window, code as u32, SHIFT_MASK, true)),
                Request::SendKey(key_event(window, code as u32, SHIFT_MASK, false)),
            ]
        }),
{
}

/// A key with no entry in the server's keyboard mapping fails with
/// [`Error::UnsupportedKey`] and puts nothing at all on the wire, on either
/// delivery path.
pub proof fn lemma_unmappable_key_emits_nothing(
    d: DisplayView,
    xtest: bool,
    key: Key,
    down: bool,
    up: bool,
)
    requires
        resolve(d.keymap, key_keysym(key)) is None,
    ensures
        key_wire(d, xtest, key, down, up) == (
            Err::<(), Error>(Error::UnsupportedKey(key)),
            Seq::<Request>::empty(),
        ),
{
}

/// The requests of each character of `chars` on the hardware-injection
/// path, concatenated in sequence order.
pub open spec fn cat_char_reqs_xtest(keymap: Seq<(u64, u8)>, chars: Seq<char>) -> Seq<Request>
    decreases chars.len(),
{
    if chars.len() == 0 {
        Seq::empty()
    } else {
        char_wire_xtest(keymap, chars[0]).1 + cat_char_reqs_xtest(keymap, chars.drop_first())
    }
}

/// How many characters at the front of `chars` the hardware-injection path
/// supports.
pub open spec fn supported_prefix_xtest(keymap: Seq<(u64, u8)>, chars: Seq<char>) -> int
    decreases chars.len(),
{
    if chars.len() == 0 {
        0
    } else if char_wire_xtest(keymap, chars[0]).0 is Ok {
        1 + supported_prefix_xtest(keymap, chars.drop_first())
    } else {
        0
    }
}

/// Typing a sequence decomposes into one single-character action per code
/// point, in sequence order: the wire carries the concatenation of the
/// per-character requests of the supported prefix; the first unsupported
/// character stops the sequence and is the one the error identifies, and
/// the characters already sent stay sent.
pub proof fn lemma_type_chars_xtest_decomposes(
    keymap: Seq<(u64, u8)>,
    log: Seq<Request>,
    chars: Seq<char>,
)
    ensures
        ({
            let k = supported_prefix_xtest(keymap, chars);
            let (res, out) = type_chars_xtest(keymap, log, chars);
            &&& 0 <= k <= chars.len()
            &&& out == log + cat_char_reqs_xtest(keymap, chars.take(k))
            &&& (k == chars.len() ==> res is Ok)
            &&& (k < chars.len() ==> res == Err::<(), Error>(Error::UnsupportedChar(chars[k])))
        }),
    decreases chars.len(),
{
    let k = supported_prefix_xtest(keymap, chars);
    if chars.len() == 0 {
        assert(log + cat_char_reqs_xtest(keymap, chars.take(0)) =~= log);
    } else {
        let (r0, q0) = char_wire_xtest(keymap, chars[0]);
        if r0 is Ok {
            lemma_type_chars_xtest_decomposes(keymap, log + q0, chars.drop_first());
            assert(chars.take(k).drop_first() =~= chars.drop_first().take(k - 1));
            assert(chars.take(k)[0] == chars[0]);
            assert((log + q0) + cat_char_reqs_xtest(keymap, chars.drop_first().take(k - 1)) =~= log
                + cat_char_reqs_xtest(keymap, chars.take(k)));
            if k < chars.len() {
                assert(chars.drop_first()[k - 1] == chars[k]);
            }
        } else {
            assert(chars[0] == chars[k]);
            assert(log + cat_char_reqs_xtest(keymap, chars.take(0)) =~= log);
        }
    }
}

/// The requests of each character of `chars` on the window-targeted path,
/// concatenated in sequence order.
pub open spec fn cat_char_reqs_window(
    keymap: Seq<(u64, u8)>,
    window: u64,
    chars: Seq<char>,
) -> Seq<Request>
    decreases chars.len(),
{
    if chars.len() == 0 {
        Seq::empty()
    } else {
        char_wire_window(keymap, window, chars[0]).1 + cat_char_reqs_window(
            keymap,
            window,
            chars.drop_first(),
        )
    }
}

/// How many characters at the front of `chars` the window-targeted path
/// supports.
pub open spec fn supported_prefix_window(keymap: Seq<(u64, u8)>, chars: Seq<char>) -> int
    decreases chars.len(),
{
    if chars.len() == 0 {
        0
    } else if char_wire_window(keymap, 0, chars[0]).0 is Ok {
        1 + supported_prefix_window(keymap, chars.drop_first())
    } else {
        0
    }
}

/// Whether a character goes through on the window-targeted path does not
/// depend on the window it is addressed to.
pub proof fn lemma_char_window_support_independent(
    keymap: Seq<(u64, u8)>,
    window: u64,
    c: char,
)
    ensures
        char_wire_window(keymap, window, c).0 == char_wire_window(keymap, 0, c).0,
{
}

/// The window-targeted counterpart of [`lemma_type_chars_xtest_decomposes`].
pub proof fn lemma_type_chars_window_decomposes(
    keymap: Seq<(u64, u8)>,
    window: u64,
    log: Seq<Request>,
    chars: Seq<char>,
)
    ensures
        ({
            let k = supported_prefix_window(keymap, chars);
            let (res, out) = type_chars_window(keymap, window, log, chars);
            &&& 0 <= k <= chars.len()
            &&& out == log + cat_char_reqs_window(keymap, window, chars.take(k))
            &&& (k == chars.len() ==> res is Ok)
            &&& (k < chars.len() ==> res == Err::<(), Error>(Error::UnsupportedChar(chars[k])))
        }),
    decreases chars.len(),
{
    let k = supported_prefix_window(keymap, chars);
    if chars.len() == 0 {
        assert(log + cat_char_reqs_window(keymap, window, chars.take(0)) =~= log);
    } else {
        lemma_char_window_support_independent(keymap, window, chars[0]);
        let (r0, q0) = char_wire_window(keymap, window, chars[0]);
        if r0 is Ok {
            lemma_type_chars_window_decomposes(keymap, window, log + q0, chars.drop_first());
            assert(chars.take(k).drop_first() =~= chars.drop_first().take(k - 1));
            assert(chars.take(k)[0] == chars[0]);
            assert((log + q0) + cat_char_reqs_window(
                keymap,
                window,
                chars.drop_first().take(k - 1),
            ) =~= log + cat_char_reqs_window(keymap, window, chars.take(k)));
            if k < chars.len() {
                assert(chars.drop_first()[k - 1] == chars[k]);
            }
        } else {
            assert(chars[0] == chars[k]);
            assert(log + cat_char_reqs_window(keymap, window, chars.take(0)) =~= log);
        }
    }
}

} // verus!
