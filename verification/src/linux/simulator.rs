//! The Linux dispatch layer: one simulator per window system, behind one
//! vocabulary.
//!
//! Only the X11 window system is supported at the moment; the enumeration
//! keeps the variant boundary explicit so that another windowing backend
//! can join later.

use vstd::prelude::*;

use crate::button::Button;
use crate::key::Key;
use crate::x11;
use crate::x11::display::OpenDisplay;
use super::error::Error;

verus! {

/// The simulator on the Linux platform.
pub enum Simulator {
    /// Event synthesis through an X11 display connection.
    X11(x11::Simulator),
}

/// The X11 simulator a Linux simulator dispatches to.
pub open spec fn x11_sim(s: Simulator) -> x11::Simulator {
    match s {
        Simulator::X11(sim) => sim,
    }
}

/// An X11 outcome, wrapped into the Linux error taxonomy.
pub open spec fn lift(r: Result<(), x11::Error>) -> Result<(), Error> {
    match r {
        Ok(()) => Ok(()),
        Err(e) => Err(Error::X11(e)),
    }
}

/// True when a key action turned `pre` into `post` exactly as the X11
/// protocol prescribes, with the outcome wrapped into the Linux taxonomy.
pub open spec fn key_step(
    pre: Simulator,
    post: Simulator,
    key: Key,
    down: bool,
    up: bool,
    r: Result<(), Error>,
) -> bool {
    let (res, reqs) = x11::simulator::key_wire(
        x11_sim(pre).display@,
        x11_sim(pre).supports_xtest,
        key,
        down,
        up,
    );
    r == lift(res) && x11::simulator::emits(x11_sim(pre), x11_sim(post), reqs)
}

/// True when a button action turned `pre` into `post` exactly as the X11
/// protocol prescribes.
pub open spec fn button_step(
    pre: Simulator,
    post: Simulator,
    button: Button,
    down: bool,
    up: bool,
    r: Result<(), Error>,
) -> bool {
    let (res, reqs) = x11::simulator::button_wire(
        x11_sim(pre).display@,
        x11_sim(pre).supports_xtest,
        button,
        down,
        up,
    );
    r == lift(res) && x11::simulator::emits(x11_sim(pre), x11_sim(post), reqs)
}

/// True when one character action turned `pre` into `post` exactly as the
/// X11 protocol prescribes.
pub open spec fn char_step(pre: Simulator, post: Simulator, c: char, r: Result<(), Error>) -> bool {
    let (res, reqs) = x11::simulator::send_char_wire(
        x11_sim(pre).display@,
        x11_sim(pre).supports_xtest,
        c,
    );
    r == lift(res) && x11::simulator::emits(x11_sim(pre), x11_sim(post), reqs)
}

/// True when a character-sequence action turned `pre` into `post` exactly
/// as the X11 protocol prescribes.
pub open spec fn chars_step(
    pre: Simulator,
    post: Simulator,
    chars: Seq<char>,
    r: Result<(), Error>,
) -> bool {
    let (res, log) = x11::simulator::send_chars_wire(
        x11_sim(pre).display@,
        x11_sim(pre).supports_xtest,
        chars,
    );
    &&& r == lift(res)
    &&& x11_sim(post).supports_xtest == x11_sim(pre).supports_xtest
    &&& x11_sim(pre).display@.same_server(x11_sim(post).display@)
    &&& x11_sim(post).display@.log == log
}

impl Simulator {
    /// Creates a new [`Simulator`] instance for the X11 window manager.
    pub fn new_x11(display: OpenDisplay) -> (s: Self)
        ensures
            x11_sim(s).display@ == display@,
            x11_sim(s).supports_xtest == display@.xtest,
    {
        Simulator::X11(x11::Simulator::new(display))
    }

    /// Simulates a key press event.
    pub fn press_key(&mut self, key: Key) -> (r: Result<(), Error>)
        ensures
            key_step(*old(self), *final(self), key, true, false, r),
    {
        match self {
            Simulator::X11(sim) => match sim.press_key(key) {
                Ok(()) => Ok(()),
                Err(e) => Err(Error::X11(e)),
            },
        }
    }

    /// Simulates a key release event.
    pub fn release_key(&mut self, key: Key) -> (r: Result<(), Error>)
        ensures
            key_step(*old(self), *final(self), key, false, true, r),
    {
        match self {
            Simulator::X11(sim) => match sim.release_key(key) {
                Ok(()) => Ok(()),
                Err(e) => Err(Error::X11(e)),
            },
        }
    }

    /// Simulates a keystroke event.
    pub fn send_key(&mut self, key: Key) -> (r: Result<(), Error>)
        ensures
            key_step(*old(self), *final(self), key, true, true, r),
    {
        match self {
            Simulator::X11(sim) => match sim.send_key(key) {
                Ok(()) => Ok(()),
                Err(e) => Err(Error::X11(e)),
            },
        }
    }

    /// Simulates a button press event.
    pub fn press_button(&mut self, button: Button) -> (r: Result<(), Error>)
        ensures
            button_step(*old(self), *final(self), button, true, false, r),
    {
        match self {
            Simulator::X11(sim) => match sim.press_button(button) {
                Ok(()) => Ok(()),
                Err(e) => Err(Error::X11(e)),
            },
        }
    }

    /// Simulates a button release event.
    pub fn release_button(&mut self, button: Button) -> (r: Result<(), Error>)
        ensures
            button_step(*old(self), *final(self), button, false, true, r),
    {
        match self {
            Simulator::X11(sim) => match sim.release_button(button) {
                Ok(()) => Ok(()),
                Err(e) => Err(Error::X11(e)),
            },
        }
    }

    /// Simulates a button click event.
    pub fn send_button(&mut self, button: Button) -> (r: Result<(), Error>)
        ensures
            button_step(*old(self), *final(self), button, true, true, r),
    {
        match self {
            Simulator::X11(sim) => match sim.send_button(button) {
                Ok(()) => Ok(()),
                Err(e) => Err(Error::X11(e)),
            },
        }
    }

    /// Simulates a character being typed.
    pub fn send_char(&mut self, c: char) -> (r: Result<(), Error>)
        ensures
            char_step(*old(self), *final(self), c, r),
    {
        match self {
            Simulator::X11(sim) => match sim.send_char(c) {
                Ok(()) => Ok(()),
                Err(e) => Err(Error::X11(e)),
            },
        }
    }

    /// Simulates characters being typed, in order.
    pub fn send_chars(&mut self, chars: &Vec<char>) -> (r: Result<(), Error>)
        ensures
            chars_step(*old(self), *final(self), chars@, r),
    {
        match self {
            Simulator::X11(sim) => match sim.send_chars(chars) {
                Ok(()) => Ok(()),
                Err(e) => Err(Error::X11(e)),
            },
        }
    }

    /// Simulates a string being typed, character by character.
    pub fn send_str(&mut self, s: &str) -> (r: Result<(), Error>)
        ensures
            chars_step(*old(self), *final(self), s@, r),
    {
        match self {
            Simulator::X11(sim) => match sim.send_str(s) {
                Ok(()) => Ok(()),
                Err(e) => Err(Error::X11(e)),
            },
        }
    }
}

} // verus!
