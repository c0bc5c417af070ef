//! The portable error type the façade hands to callers.

use vstd::prelude::*;

verus! {

/// The backend-specific failure a portable [`Error`] carries.
#[derive(Debug, Clone, Copy, PartialEq, Eq)]
pub enum BackendError {
    /// A failure of a Linux backend.
    Linux(crate::linux::Error),
    /// A failure of the Windows backend.
    Windows(crate::windows::Error),
}

/// An error that might occur when simulating user inputs.
#[derive(Debug, Clone, Copy, PartialEq, Eq)]
pub struct Error(pub BackendError);

impl Error {
    /// What [`Error::message`] returns for each backend failure.
    pub open spec fn message_spec(self) -> Seq<char> {
        match self.0 {
            BackendError::Linux(e) => e.message_spec(),
            BackendError::Windows(e) => e.message_spec(),
        }
    }

    /// A short description of the error.
    pub fn message(&self) -> (r: &'static str)
        ensures
            r@ == self.message_spec(),
    {
        match &self.0 {
            BackendError::Linux(e) => e.message(),
            BackendError::Windows(e) => e.message(),
        }
    }
}

} // verus!
