//! The Windows backend: batched submission to the OS input queue.
//!
//! Every action builds an ordered array of low-level input records and
//! pushes it through the partial-acceptance retry loop of
//! [`queue::send_events`], verified here against the in-memory queue model
//! of [`queue::InputQueue`].

pub mod codes;
pub mod error;
pub mod queue;
pub mod records;
pub mod simulator;

pub use error::Error;
pub use simulator::Simulator;
