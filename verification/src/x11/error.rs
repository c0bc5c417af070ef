//! Failures of the X11 backend.

use vstd::prelude::*;

use crate::key::Key;

verus! {

/// An error that may occur when interacting with the X11 window manager.
#[derive(Debug, Clone, Copy, PartialEq, Eq)]
pub enum Error {
    /// An error occured when opening an X11 display instance.
    OpenDisplay,
    /// The X11 server behaved in an unexpected way.
    Unexpected,
    /// The key is not supported.
    UnsupportedKey(Key),
    /// The character is not supported.
    UnsupportedChar(char),
}

impl Error {
    /// What [`Error::message`] returns for each variant.
    pub open spec fn message_spec(self) -> Seq<char> {
        match self {
            Error::OpenDisplay => "failed to open a connection with the X server"@,
            Error::Unexpected => "the X server behaved in an unexpected way"@,
            Error::UnsupportedKey(_) => "the X server does not support this key"@,
            Error::UnsupportedChar(_) => "the X server does not support this character"@,
        }
    }

    /// A short description of the error.
    pub fn message(&self) -> (r: &'static str)
        ensures
            r@ == self.message_spec(),
    {
        match self {
            Error::OpenDisplay => "failed to open a connection with the X server",
            Error::Unexpected => "the X server behaved in an unexpected way",
            Error::UnsupportedKey(_) => "the X server does not support this key",
            Error::UnsupportedChar(_) => "the X server does not support this character",
        }
    }
}

} // verus!
