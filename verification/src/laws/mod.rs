//! What holds of the library as a whole.

pub mod config;
pub mod device;
pub mod events;
pub mod memory;
pub mod queue;
