//! Failures of the Windows backend.

use vstd::prelude::*;

use crate::key::Key;

verus! {

/// An error that might occur when interacting with the Windows operating
/// system.
#[derive(Debug, Clone, Copy, PartialEq, Eq)]
pub enum Error {
    /// The input queue accepted no new record, signalling contention from
    /// another thread or process.
    Blocked,
    /// The key is not supported.
    UnsupportedKey(Key),
    /// The character is not supported.
    UnsupportedChar(char),
}

impl Error {
    /// What [`Error::message`] returns for each variant.
    pub open spec fn message_spec(self) -> Seq<char> {
        match self {
            Error::Blocked => "the inputs were blocked by another thread"@,
            Error::UnsupportedKey(_) => "this key is not supported"@,
            Error::UnsupportedChar(_) => "this character is not supported"@,
        }
    }

    /// A short description of the error.
    pub fn message(&self) -> (r: &'static str)
        ensures
            r@ == self.message_spec(),
    {
        match self {
            Error::Blocked => "the inputs were blocked by another thread",
            Error::UnsupportedKey(_) => "this key is not supported",
            Error::UnsupportedChar(_) => "this character is not supported",
        }
    }
}

} // verus!
