//! The façade: one entry point that owns exactly one backend and forwards
//! every action to it, wrapping backend-specific errors into the portable
//! error type. It holds no other state.

use vstd::prelude::*;

use crate::button::Button;
use crate::error::{BackendError, Error};
use crate::key::Key;
use crate::linux;
use crate::windows;

verus! {

/// The backend a [`Simulator`] owns. Exactly one is selected when the
/// simulator is constructed.
pub enum Backend {
    /// The Linux dispatch layer.
    Linux(linux::Simulator),
    /// The Windows batched-submission backend.
    Windows(windows::Simulator),
}

/// A Linux outcome, wrapped into the portable error type.
pub open spec fn lift_linux(r: Result<(), linux::Error>) -> Result<(), Error> {
    match r {
        Ok(()) => Ok(()),
        Err(e) => Err(Error(BackendError::Linux(e))),
    }
}

/// A Windows outcome, wrapped into the portable error type.
pub open spec fn lift_windows(r: Result<(), windows::Error>) -> Result<(), Error> {
    match r {
        Ok(()) => Ok(()),
        Err(e) => Err(Error(BackendError::Windows(e))),
    }
}

/// True when a key action on the Linux backend behaved as its protocol
/// prescribes, the outcome wrapped into the portable taxonomy.
pub open spec fn linux_key(
    pre: linux::Simulator,
    post: linux::Simulator,
    key: Key,
    down: bool,
    up: bool,
    r: Result<(), Error>,
) -> bool {
    let (res, reqs) = crate::x11::simulator::key_wire(
        linux::simulator::x11_sim(pre).display@,
        linux::simulator::x11_sim(pre).supports_xtest,
        key,
        down,
        up,
    );
    r == lift_linux(linux::simulator::lift(res)) && crate::x11::simulator::emits(
        linux::simulator::x11_sim(pre),
        linux::simulator::x11_sim(post),
        reqs,
    )
}

/// True when a key action on the Windows backend behaved as its protocol
/// prescribes, the outcome wrapped into the portable taxonomy.
pub open spec fn windows_key(
    pre: windows::Simulator,
    post: windows::Simulator,
    key: Key,
    down: bool,
    up: bool,
    r: Result<(), Error>,
) -> bool {
    let (res, q) = windows::simulator::key_wire(pre.queue@, key, down, up);
    r == lift_windows(res) && post.queue@ == q
}

/// True when a button action on the Linux backend behaved as its protocol
/// prescribes.
pub open spec fn linux_button(
    pre: linux::Simulator,
    post: linux::Simulator,
    button: Button,
    down: bool,
    up: bool,
    r: Result<(), Error>,
) -> bool {
    let (res, reqs) = crate::x11::simulator::button_wire(
        linux::simulator::x11_sim(pre).display@,
        linux::simulator::x11_sim(pre).supports_xtest,
        button,
        down,
        up,
    );
    r == lift_linux(linux::simulator::lift(res)) && crate::x11::simulator::emits(
        linux::simulator::x11_sim(pre),
        linux::simulator::x11_sim(post),
        reqs,
    )
}

/// True when a button action on the Windows backend behaved as its
/// protocol prescribes.
pub open spec fn windows_button(
    pre: windows::Simulator,
    post: windows::Simulator,
    button: Button,
    down: bool,
    up: bool,
    r: Result<(), Error>,
) -> bool {
    let (res, q) = windows::simulator::button_wire(pre.queue@, button, down, up);
    r == lift_windows(res) && post.queue@ == q
}

/// True when one character action on the Linux backend behaved as its
/// protocol prescribes.
pub open spec fn linux_char(
    pre: linux::Simulator,
    post: linux::Simulator,
    c: char,
    r: Result<(), Error>,
) -> bool {
    let (res, reqs) = crate::x11::simulator::send_char_wire(
        linux::simulator::x11_sim(pre).display@,
        linux::simulator::x11_sim(pre).supports_xtest,
        c,
    );
    r == lift_linux(linux::simulator::lift(res)) && crate::x11::simulator::emits(
        linux::simulator::x11_sim(pre),
        linux::simulator::x11_sim(post),
        reqs,
    )
}

/// True when one character action on the Windows backend behaved as its
/// protocol prescribes.
pub open spec fn windows_char(
    pre: windows::Simulator,
    post: windows::Simulator,
    c: char,
    r: Result<(), Error>,
) -> bool {
    let (res, q) = windows::simulator::char_wire(pre.queue@, c);
    r == lift_windows(res) && post.queue@ == q
}

/// True when a character-sequence action on the Linux backend behaved as
/// its protocol prescribes.
pub open spec fn linux_chars(
    pre: linux::Simulator,
    post: linux::Simulator,
    chars: Seq<char>,
    r: Result<(), Error>,
) -> bool {
    let (res, log) = crate::x11::simulator::send_chars_wire(
        linux::simulator::x11_sim(pre).display@,
        linux::simulator::x11_sim(pre).supports_xtest,
        chars,
    );
    &&& r == lift_linux(linux::simulator::lift(res))
    &&& linux::simulator::x11_sim(post).supports_xtest == linux::simulator::x11_sim(
        pre,
    ).supports_xtest
    &&& linux::simulator::x11_sim(pre).display@.same_server(
        linux::simulator::x11_sim(post).display@,
    )
    &&& linux::simulator::x11_sim(post).display@.log == log
}

/// True when a character-sequence action on the Windows backend behaved as
/// its protocol prescribes.
pub open spec fn windows_chars(
    pre: windows::Simulator,
    post: windows::Simulator,
    chars: Seq<char>,
    r: Result<(), Error>,
) -> bool {
    let (res, q) = windows::simulator::type_chars(pre.queue@, chars);
    r == lift_windows(res) && post.queue@ == q
}

/// Stores the state required to simulate inputs.
///
/// The façade owns exactly one backend, selected at construction, and
/// forwards every action to it unmodified, translating the backend's
/// errors into the portable [`Error`].
pub struct Simulator(pub Backend);

impl Simulator {
    /// Creates a new [`Simulator`] instance over the selected backend.
    pub fn new(backend: Backend) -> (s: Self)
        ensures
            s.0 == backend,
    {
        Simulator(backend)
    }

    /// Sends a fake key press event to the top-level window.
    pub fn press_key(&mut self, key: Key) -> (r: Result<(), Error>)
        ensures
            (old(self).0 matches Backend::Linux(pre) ==> final(self).0 matches Backend::Linux(post)
                && linux_key(pre, post, key, true, false, r)),
            (old(self).0 matches Backend::Windows(pre) ==> final(self).0 matches Backend::Windows(
                post,
            ) && windows_key(pre, post, key, true, false, r)),
    {
        match &mut self.0 {
            Backend::Linux(sim) => match sim.press_key(key) {
                Ok(()) => Ok(()),
                Err(e) => Err(Error(BackendError::Linux(e))),
            },
            Backend::Windows(sim) => match sim.press_key(key) {
                Ok(()) => Ok(()),
                Err(e) => Err(Error(BackendError::Windows(e))),
            },
        }
    }

    /// Sends a fake key release event to the top-level window.
    pub fn release_key(&mut self, key: Key) -> (r: Result<(), Error>)
        ensures
            (old(self).0 matches Backend::Linux(pre) ==> final(self).0 matches Backend::Linux(post)
                && linux_key(pre, post, key, false, true, r)),
            (old(self).0 matches Backend::Windows(pre) ==> final(self).0 matches Backend::Windows(
                post,
            ) && windows_key(pre, post, key, false, true, r)),
    {
        match &mut self.0 {
            Backend::Linux(sim) => match sim.release_key(key) {
                Ok(()) => Ok(()),
                Err(e) => Err(Error(BackendError::Linux(e))),
            },
            Backend::Windows(sim) => match sim.release_key(key) {
                Ok(()) => Ok(()),
                Err(e) => Err(Error(BackendError::Windows(e))),
            },
        }
    }

    /// Sends a fake keystroke event to the top-level window.
    pub fn send_key(&mut self, key: Key) -> (r: Result<(), Error>)
        ensures
            (old(self).0 matches Backend::Linux(pre) ==> final(self).0 matches Backend::Linux(post)
                && linux_key(pre, post, key, true, true, r)),
            (old(self).0 matches Backend::Windows(pre) ==> final(self).0 matches Backend::Windows(
                post,
            ) && windows_key(pre, post, key, true, true, r)),
    {
        match &mut self.0 {
            Backend::Linux(sim) => match sim.send_key(key) {
                Ok(()) => Ok(()),
                Err(e) => Err(Error(BackendError::Linux(e))),
            },
            Backend::Windows(sim) => match sim.send_key(key) {
                Ok(()) => Ok(()),
                Err(e) => Err(Error(BackendError::Windows(e))),
            },
        }
    }

    /// Sends a fake button press event to the top-level window.
    pub fn press_button(&mut self, button: Button) -> (r: Result<(), Error>)
        ensures
            (old(self).0 matches Backend::Linux(pre) ==> final(self).0 matches Backend::Linux(post)
                && linux_button(pre, post, button, true, false, r)),
            (old(self).0 matches Backend::Windows(pre) ==> final(self).0 matches Backend::Windows(
                post,
            ) && windows_button(pre, post, button, true, false, r)),
    {
        match &mut self.0 {
            Backend::Linux(sim) => match sim.press_button(button) {
                Ok(()) => Ok(()),
                Err(e) => Err(Error(BackendError::Linux(e))),
            },
            Backend::Windows(sim) => match sim.press_button(button) {
                Ok(()) => Ok(()),
                Err(e) => Err(Error(BackendError::Windows(e))),
            },
        }
    }

    /// Sends a fake button release event to the top-level window.
    pub fn release_button(&mut self, button: Button) -> (r: Result<(), Error>)
        ensures
            (old(self).0 matches Backend::Linux(pre) ==> final(self).0 matches Backend::Linux(post)
                && linux_button(pre, post, button, false, true, r)),
            (old(self).0 matches Backend::Windows(pre) ==> final(self).0 matches Backend::Windows(
                post,
            ) && windows_button(pre, post, button, false, true, r)),
    {
        match &mut self.0 {
            Backend::Linux(sim) => match sim.release_button(button) {
                Ok(()) => Ok(()),
                Err(e) => Err(Error(BackendError::Linux(e))),
            },
            Backend::Windows(sim) => match sim.release_button(button) {
                Ok(()) => Ok(()),
                Err(e) => Err(Error(BackendError::Windows(e))),
            },
        }
    }

    /// Sends a fake button click event to the top-level window.
    pub fn send_button(&mut self, button: Button) -> (r: Result<(), Error>)
        ensures
            (old(self).0 matches Backend::Linux(pre) ==> final(self).0 matches Backend::Linux(post)
                && linux_button(pre, post, button, true, true, r)),
            (old(self).0 matches Backend::Windows(pre) ==> final(self).0 matches Backend::Windows(
                post,
            ) && windows_button(pre, post, button, true, true, r)),
    {
        match &mut self.0 {
            Backend::Linux(sim) => match sim.send_button(button) {
                Ok(()) => Ok(()),
                Err(e) => Err(Error(BackendError::Linux(e))),
            },
            Backend::Windows(sim) => match sim.send_button(button) {
                Ok(()) => Ok(()),
                Err(e) => Err(Error(BackendError::Windows(e))),
            },
        }
    }

    /// Sends a unicode code-point to the top-level window.
    pub fn send_char(&mut self, c: char) -> (r: Result<(), Error>)
        ensures
            (old(self).0 matches Backend::Linux(pre) ==> final(self).0 matches Backend::Linux(post)
                && linux_char(pre, post, c, r)),
            (old(self).0 matches Backend::Windows(pre) ==> final(self).0 matches Backend::Windows(
                post,
            ) && windows_char(pre, post, c, r)),
    {
        match &mut self.0 {
            Backend::Linux(sim) => match sim.send_char(c) {
                Ok(()) => Ok(()),
                Err(e) => Err(Error(BackendError::Linux(e))),
            },
            Backend::Windows(sim) => match sim.send_char(c) {
                Ok(()) => Ok(()),
                Err(e) => Err(Error(BackendError::Windows(e))),
            },
        }
    }

    /// Sends a bunch of unicode code-points to the top-level window.
    pub fn send_chars(&mut self, chars: &Vec<char>) -> (r: Result<(), Error>)
        ensures
            (old(self).0 matches Backend::Linux(pre) ==> final(self).0 matches Backend::Linux(post)
                && linux_chars(pre, post, chars@, r)),
            (old(self).0 matches Backend::Windows(pre) ==> final(self).0 matches Backend::Windows(
                post,
            ) && windows_chars(pre, post, chars@, r)),
    {
        match &mut self.0 {
            Backend::Linux(sim) => match sim.send_chars(chars) {
                Ok(()) => Ok(()),
                Err(e) => Err(Error(BackendError::Linux(e))),
            },
            Backend::Windows(sim) => match sim.send_chars(chars) {
                Ok(()) => Ok(()),
                Err(e) => Err(Error(BackendError::Windows(e))),
            },
        }
    }

    /// Sends a string to the top-level window.
    pub fn send_str(&mut self, s: &str) -> (r: Result<(), Error>)
        ensures
            (old(self).0 matches Backend::Linux(pre) ==> final(self).0 matches Backend::Linux(post)
                && linux_chars(pre, post, s@, r)),
            (old(self).0 matches Backend::Windows(pre) ==> final(self).0 matches Backend::Windows(
                post,
            ) && windows_chars(pre, post, s@, r)),
    {
        match &mut self.0 {
            Backend::Linux(sim) => match sim.send_str(s) {
                Ok(()) => Ok(()),
                Err(e) => Err(Error(BackendError::Linux(e))),
            },
            Backend::Windows(sim) => match sim.send_str(s) {
                Ok(()) => Ok(()),
                Err(e) => Err(Error(BackendError::Windows(e))),
            },
        }
    }
}

} // verus!
