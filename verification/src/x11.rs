//! The X11 backend: event synthesis over a dual-path delivery protocol.
//!
//! The backend prefers hardware-level injection through the XTEST extension;
//! when the extension is absent it synthesizes events addressed to the
//! window that currently holds the input focus. Everything the backend
//! decides — which path is taken, which codes are resolved, which requests
//! are emitted in which order — is verified here against the in-memory
//! connection model of [`display::OpenDisplay`].

pub mod codes;
pub mod display;
pub mod error;
pub mod simulator;
pub mod wire;

pub use error::Error;
pub use simulator::Simulator;
