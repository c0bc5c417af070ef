//! Simulation of keyboard and mouse input, specified and verified at the
//! wire-protocol level.
//!
//! The crate is organised sans-IO: everything that decides *what* is sent —
//! key, character and button resolution, the event-synthesis protocol of the
//! X11 backend, and the batched-submission protocol of the Windows backend —
//! lives here and is verified against in-memory models of the display
//! connection and of the OS input queue. A separate, unverified transport
//! layer owns the live OS handles, keeps the models in sync with the real
//! session, and replays the logged wire requests one for one.

pub mod button;
pub mod error;
pub mod key;
pub mod linux;
pub mod simulator;
pub mod windows;
pub mod x11;

pub use button::Button;
pub use error::{BackendError, Error};
pub use key::Key;
pub use simulator::{Backend, Simulator};
