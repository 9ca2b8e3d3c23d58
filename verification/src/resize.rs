//! Requests for a new balloon size, from whoever makes them to the event loop.

use crate::error::Error;
use crate::host::Host;
use std::sync::mpsc::RecvError;
use vstd::prelude::*;

verus! {

/// What an event counter is raised by.
pub const EVENT_INCREMENT: u64 = 1;

/// The size that the shared cell holds before any request.
pub const INITIAL_SIZE: u64 = 0;

/// One end of the way by which a new size is requested. Only the end that holds the
/// receiver makes requests; the others answer them.
pub struct VirtioBalloonResize<H: Host> {
    pub size: H::Size,
    pub tx: H::Sender,
    pub rx: Option<H::Receiver>,
    pub evt: H::Event,
}

/// What a request for a new size needs next.
#[allow(inconsistent_fields)]
pub enum ResizeStep {
    /// `size` stored in the shared cell.
    Store { size: u64, rest: Storing },
    /// `value` added to the event counter.
    Notify { value: u64, rest: Notifying },
    /// The answer received.
    Receive(Receiving),
    /// Nothing any more.
    Done(Result<(), Error>),
}

/// Waits for the size to be stored.
pub struct Storing {}

/// Waits for the event counter.
pub struct Notifying {}

/// Waits for the answer.
pub struct Receiving {}

/// The step after the event loop has been notified.
pub open spec fn after_notify(written: Result<(), std::io::Error>) -> ResizeStep {
    match written {
        Ok(()) => ResizeStep::Receive(Receiving {  }),
        Err(e) => ResizeStep::Done(Err(Error::EventFdWriteFail(e))),
    }
}

/// The step after the answer has been received.
pub open spec fn after_receive(answer: Result<Result<(), Error>, RecvError>) -> ResizeStep {
    match answer {
        Ok(result) => ResizeStep::Done(result),
        Err(e) => ResizeStep::Done(Err(Error::MpscRecvFail(e))),
    }
}

impl<H: Host> VirtioBalloonResize<H> {
    /// Makes the end that makes requests, given an event counter.
    pub fn new(
        size: H::Size,
        tx: H::Sender,
        rx: H::Receiver,
        evt: Result<H::Event, std::io::Error>,
    ) -> (r: Result<Self, std::io::Error>)
        ensures
            r == match evt {
                Ok(evt) => Ok(VirtioBalloonResize::<H> { size, tx, rx: Some(rx), evt }),
                Err(e) => Err(e),
            },
    {
        match evt {
            Ok(evt) => Ok(VirtioBalloonResize::<H> { size, tx, rx: Some(rx), evt }),
            Err(e) => Err(e),
        }
    }

    /// `other` shares the size and the channel with this end, holds `evt`, and makes no
    /// requests.
    pub open spec fn shared_with(self, other: Self, evt: H::Event) -> bool {
        &&& cloned(self.size, other.size)
        &&& cloned(self.tx, other.tx)
        &&& other.rx is None
        &&& other.evt == evt
    }

    /// Makes an end that answers requests, given a duplicate of the event counter.
    pub fn try_clone(&self, evt: Result<H::Event, std::io::Error>) -> (r: Result<Self, Error>)
        ensures
            match evt {
                Ok(evt) => r matches Ok(other) && self.shared_with(other, evt),
                Err(e) => r == Err::<Self, Error>(Error::EventFdTryCloneFail(e)),
            },
    {
        match evt {
            Ok(evt) => Ok(
                VirtioBalloonResize {
                    size: self.size.clone(),
                    tx: self.tx.clone(),
                    rx: None,
                    evt,
                },
            ),
            Err(e) => Err(Error::EventFdTryCloneFail(e)),
        }
    }

    /// Requests that the balloon hold `size` bytes.
    pub fn work(&self, size: u64) -> (r: ResizeStep)
        requires
            self.rx is Some,
        ensures
            r == (ResizeStep::Store { size, rest: Storing {  } }),
    {
        ResizeStep::Store { size, rest: Storing {  } }
    }
}

impl Storing {
    /// Goes on once the size has been stored.
    pub fn next(self) -> (r: ResizeStep)
        ensures
            r == (ResizeStep::Notify { value: EVENT_INCREMENT, rest: Notifying {  } }),
    {
        ResizeStep::Notify { value: EVENT_INCREMENT, rest: Notifying {  } }
    }
}

impl Notifying {
    /// Goes on once the event loop has been notified, or could not be.
    pub fn next(self, written: Result<(), std::io::Error>) -> (r: ResizeStep)
        ensures
            r == after_notify(written),
    {
        match written {
            Ok(()) => ResizeStep::Receive(Receiving {  }),
            Err(e) => ResizeStep::Done(Err(Error::EventFdWriteFail(e))),
        }
    }
}

impl Receiving {
    /// Ends the request with the answer, or without one if none can come any more.
    pub fn next(self, answer: Result<Result<(), Error>, RecvError>) -> (r: ResizeStep)
        ensures
            r == after_receive(answer),
    {
        match answer {
            Ok(result) => ResizeStep::Done(result),
            Err(e) => ResizeStep::Done(Err(Error::MpscRecvFail(e))),
        }
    }
}

} // verus!
