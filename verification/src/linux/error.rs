//! Failures of the Linux backends.

use vstd::prelude::*;

verus! {

/// An error that may occur when simulating user inputs on the Linux
/// operating system.
#[derive(Debug, Clone, Copy, PartialEq, Eq)]
pub enum Error {
    /// A failure of the X11 backend.
    X11(crate::x11::Error),
}

impl Error {
    /// What [`Error::message`] returns for each variant.
    pub open spec fn message_spec(self) -> Seq<char> {
        match self {
            Error::X11(e) => e.message_spec(),
        }
    }

    /// A short description of the error.
    pub fn message(&self) -> (r: &'static str)
        ensures
            r@ == self.message_spec(),
    {
        match self {
            Error::X11(e) => e.message(),
        }
    }
}

} // verus!
