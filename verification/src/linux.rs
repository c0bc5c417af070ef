//! The Linux platform layer: window-system backends and their errors.

pub mod error;
pub mod simulator;

pub use error::Error;
pub use simulator::Simulator;
