//! Errors of the balloon device and of its event loop.

use vm_memory::GuestMemoryError;
use vstd::prelude::*;

verus! {

/// `std::io::Error`, carried through unread.
#[verifier::external_type_specification]
#[verifier::external_body]
pub struct ExIoError(std::io::Error);

/// `std::sync::mpsc::RecvError`, carried through unread.
#[verifier::external_type_specification]
#[verifier::external_body]
pub struct ExRecvError(std::sync::mpsc::RecvError);

/// `vm_memory::GuestMemoryError`, carried through unread.
#[verifier::external_type_specification]
#[verifier::external_body]
pub struct ExGuestMemoryError(GuestMemoryError);

/// What ends the event loop, or the work on one queue, early.
#[derive(Debug)]
pub enum DeviceError {
    /// The epoll file descriptor could not be created.
    EpollCreateFd(std::io::Error),
    /// A file descriptor could not be added to the epoll set.
    EpollCtl(std::io::Error),
    /// Waiting on the epoll file descriptor failed.
    EpollWait(std::io::Error),
    /// The guest could not be interrupted.
    FailedSignalingUsedQueue(std::io::Error),
}

/// Errors of the balloon device.
#[derive(Debug)]
pub enum Error {
    /// The guest gave bad memory addresses.
    GuestMemory(GuestMemoryError),
    /// The guest gave a write-only descriptor where the protocol reads.
    UnexpectedWriteOnlyDescriptor,
    /// The guest gave a read-only descriptor where the protocol writes.
    UnexpectedReadOnlyDescriptor,
    /// The guest gave too few descriptors in a descriptor chain.
    DescriptorChainTooShort,
    /// The guest gave a buffer that was too short to use.
    BufferLengthTooSmall,
    /// The guest sent an invalid request.
    InvalidRequest,
    /// An event could not be raised.
    EventFdWriteFail(std::io::Error),
    /// An event descriptor could not be duplicated.
    EventFdTryCloneFail(std::io::Error),
    /// No answer to a resize request can come any more.
    MpscRecvFail(std::sync::mpsc::RecvError),
    /// A resize request had an invalid argument.
    ResizeInval(String),
    /// The guest could not be told of its new size.
    ResizeTriggerFail(DeviceError),
}

/// Why the device could not be activated.
#[derive(Clone, Copy, Debug, PartialEq, Eq, Structural)]
pub enum ActivateError {
    /// The driver's set-up does not fit the device, or a resource is missing.
    BadActivate,
}

} // verus!
