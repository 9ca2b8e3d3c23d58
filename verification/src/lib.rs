//! Decision logic of a virtio memory balloon device.
//!
//! The balloon lets the host reclaim guest memory: the guest lists page frames on
//! the inflate queue, which the host then drops, or on the deflate queue, which the
//! host then brings back. Everything the device decides is here; the system calls
//! that it decides on are left to the caller. A function that cannot go on without
//! one returns a step, which names the call and carries what continues after it.

pub mod config;
pub mod device;
pub mod error;
pub mod handler;
pub mod host;
pub mod laws;
pub mod memory;
pub mod queue;
pub mod resize;
