//! The handles that the device holds and hands out, which only the host can use.

use vstd::prelude::*;

verus! {

/// The kinds of handle that a host gives to the device.
pub trait Host {
    /// The shared cell that holds the size last requested.
    type Size: Clone;

    /// The sending end of the channel for answers to resize requests.
    type Sender: Clone;

    /// The receiving end of that channel.
    type Receiver;

    /// An event counter.
    type Event;

    /// The way to interrupt the guest.
    type Interrupt: Clone;

    /// The shared cell that holds the configuration.
    type Config: Clone;

    /// The shared flag that tells whether the device is paused.
    type Paused: Clone;

    /// A queue.
    type Queue;

    /// The guest's memory.
    type Memory;

    /// A running thread.
    type Thread;
}

} // verus!
