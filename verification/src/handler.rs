//! The event loop of the device's worker thread.
//!
//! The loop goes from one `RunStep` to the next: the caller does what the step asks for
//! and calls `next` on what the step carries, with the outcome where there is one.

use crate::config::{num_pages, pages_in};
use crate::error::{DeviceError, Error};
use crate::host::Host;
use crate::queue::{signal, spec_signal, QueueKind, QueueStep, StepModel, Walk};
use crate::resize::VirtioBalloonResize;
use std::collections::VecDeque;
use vstd::prelude::*;

verus! {

/// The token of a resize request.
pub const RESIZE_EVENT: u16 = 0;

/// The token of new descriptors on the inflate queue.
pub const INFLATE_QUEUE_AVAIL_EVENT: u16 = 1;

/// The token of new descriptors on the deflate queue.
pub const DEFLATE_QUEUE_AVAIL_EVENT: u16 = 2;

/// The token of the device being dropped.
pub const KILL_EVENT: u16 = 3;

/// The token of the device being paused.
pub const PAUSE_EVENT: u16 = 4;

/// Most events that are taken at a time.
pub const EPOLL_EVENTS_LEN: usize = 100;

/// `epoll::Events::EPOLLIN`, as the bits that the system call takes: a descriptor is
/// watched for something to read. The value is that of Linux.
#[verifier::external_body]
fn epollin() -> (r: u32)
    ensures
        r == 1,
{
    epoll::Events::EPOLLIN.bits()
}

/// What the loop waits for.
#[derive(Clone, Copy, Debug, PartialEq, Eq, Structural)]
pub enum EventSource {
    /// A resize request.
    Resize,
    /// New descriptors on the inflate queue.
    Inflate,
    /// New descriptors on the deflate queue.
    Deflate,
    /// The device being dropped.
    Kill,
    /// The device being paused.
    Pause,
}

impl EventSource {
    /// The token by which epoll reports the source.
    pub open spec fn spec_token(self) -> u16 {
        match self {
            EventSource::Resize => RESIZE_EVENT,
            EventSource::Inflate => INFLATE_QUEUE_AVAIL_EVENT,
            EventSource::Deflate => DEFLATE_QUEUE_AVAIL_EVENT,
            EventSource::Kill => KILL_EVENT,
            EventSource::Pause => PAUSE_EVENT,
        }
    }

    /// The source that is added to the epoll set after this one.
    pub open spec fn spec_following(self) -> Option<EventSource> {
        match self {
            EventSource::Resize => Some(EventSource::Inflate),
            EventSource::Inflate => Some(EventSource::Deflate),
            EventSource::Deflate => Some(EventSource::Kill),
            EventSource::Kill => Some(EventSource::Pause),
            EventSource::Pause => None,
        }
    }

    /// The token by which epoll reports the source.
    pub fn token(&self) -> (r: u16)
        ensures
            r == self.spec_token(),
    {
        match self {
            EventSource::Resize => RESIZE_EVENT,
            EventSource::Inflate => INFLATE_QUEUE_AVAIL_EVENT,
            EventSource::Deflate => DEFLATE_QUEUE_AVAIL_EVENT,
            EventSource::Kill => KILL_EVENT,
            EventSource::Pause => PAUSE_EVENT,
        }
    }

    /// The source that is added to the epoll set after this one.
    pub fn following(&self) -> (r: Option<EventSource>)
        ensures
            r == self.spec_following(),
    {
        match self {
            EventSource::Resize => Some(EventSource::Inflate),
            EventSource::Inflate => Some(EventSource::Deflate),
            EventSource::Deflate => Some(EventSource::Kill),
            EventSource::Kill => Some(EventSource::Pause),
            EventSource::Pause => None,
        }
    }
}

/// The source that `token` stands for.
pub open spec fn spec_source(token: u16) -> Option<EventSource> {
    if token == RESIZE_EVENT {
        Some(EventSource::Resize)
    } else if token == INFLATE_QUEUE_AVAIL_EVENT {
        Some(EventSource::Inflate)
    } else if token == DEFLATE_QUEUE_AVAIL_EVENT {
        Some(EventSource::Deflate)
    } else if token == KILL_EVENT {
        Some(EventSource::Kill)
    } else if token == PAUSE_EVENT {
        Some(EventSource::Pause)
    } else {
        None
    }
}

/// The source that `token` stands for.
pub fn source(token: u16) -> (r: Option<EventSource>)
    ensures
        r == spec_source(token),
{
    match token {
        RESIZE_EVENT => Some(EventSource::Resize),
        INFLATE_QUEUE_AVAIL_EVENT => Some(EventSource::Inflate),
        DEFLATE_QUEUE_AVAIL_EVENT => Some(EventSource::Deflate),
        KILL_EVENT => Some(EventSource::Kill),
        PAUSE_EVENT => Some(EventSource::Pause),
        _ => None,
    }
}

/// What is to be done once the event counter of a source has been read.
#[derive(Clone, Copy, Debug, PartialEq, Eq, Structural)]
pub enum Task {
    /// To answer a resize request.
    Resize,
    /// To work on a queue.
    Queue(QueueKind),
}

/// The token in what epoll reports: its low 16 bits.
pub open spec fn spec_token_of(data: u64) -> u16 {
    (data as int % 0x1_0000) as u16
}

/// The token in what epoll reports.
pub fn token_of(data: u64) -> (r: u16)
    ensures
        r == spec_token_of(data),
{
    assert(data as u16 == data % 0x1_0000) by (bit_vector);
    #[verifier::truncate]
    (data as u16)
}

/// What came of waiting for events.
pub enum WaitOutcome {
    /// The data of the events that have occurred, in the order in which they came.
    Ready(VecDeque<u64>),
    /// Waiting failed; `interrupted` tells whether a signal was the reason.
    Failed { interrupted: bool, error: std::io::Error },
}

/// What a `RunStep` stands for. Of the events that have been taken, `pending` holds
/// those not yet looked at.
#[allow(inconsistent_fields)]
pub enum RunModel {
    CreateEpoll,
    Watch { source: EventSource, interest: u32, token: u64 },
    Wait { max_events: usize },
    ReadEvent { task: Task, pending: Seq<u64> },
    LoadSize { pending: Seq<u64> },
    UpdateConfig { num_pages: int, pending: Seq<u64> },
    Reply { result: Result<(), Error>, stop: bool, pending: Seq<u64> },
    Process { kind: QueueKind, pending: Seq<u64> },
    CheckPaused { pending: Seq<u64> },
    Park { pending: Seq<u64> },
    Unknown { token: u16, pending: Seq<u64> },
    Exit(Result<(), DeviceError>),
}

/// What the event loop needs next.
#[allow(inconsistent_fields)]
pub enum RunStep {
    /// An epoll file descriptor.
    CreateEpoll(Creating),
    /// A source added to the epoll set, to be reported for `interest` with `token`.
    Watch { interest: u32, token: u64, rest: Watching },
    /// At most `max_events` events, waited for as long as it takes.
    Wait { max_events: usize, rest: Waiting },
    /// An event counter read.
    ReadEvent(ReadingEvent),
    /// The size that was last requested.
    LoadSize(LoadingSize),
    /// The configuration set to `num_pages`, and the guest interrupted for it before
    /// anyone else gets to see the configuration.
    UpdateConfig { num_pages: u32, rest: Updating },
    /// `result` sent to whoever requested the new size.
    Reply { result: Result<(), Error>, rest: Replying },
    /// The work on a queue done.
    Process { kind: QueueKind, rest: Processing },
    /// Whether the device is paused.
    CheckPaused(Pausing),
    /// To be woken up.
    Park(Parked),
    /// Nothing: `token` is none that the loop knows, and the event is passed over.
    Unknown { token: u16, rest: Dispatching },
    /// Nothing any more: the loop ends.
    Exit(Result<(), DeviceError>),
}

/// Waits for the epoll file descriptor.
pub struct Creating {}

/// Waits for `source` to be added to the epoll set.
pub struct Watching {
    source: EventSource,
}

/// Waits for events.
pub struct Waiting {}

/// Waits for an event counter, for the sake of `task`.
pub struct ReadingEvent {
    task: Task,
    pending: VecDeque<u64>,
}

/// Waits for the requested size.
pub struct LoadingSize {
    pending: VecDeque<u64>,
}

/// Waits for the interrupt for the new configuration.
pub struct Updating {
    pending: VecDeque<u64>,
}

/// Waits for the answer to be sent.
pub struct Replying {
    stop: bool,
    pending: VecDeque<u64>,
}

/// Waits for the work on a queue.
pub struct Processing {
    pending: VecDeque<u64>,
}

/// Waits to hear whether the device is paused.
pub struct Pausing {
    pending: VecDeque<u64>,
}

/// Waits to be woken up.
pub struct Parked {
    pending: VecDeque<u64>,
}

/// Has events to look at.
pub struct Dispatching {
    pending: VecDeque<u64>,
}

impl View for Watching {
    type V = EventSource;

    closed spec fn view(&self) -> EventSource {
        self.source
    }
}

impl View for ReadingEvent {
    type V = (Task, Seq<u64>);

    closed spec fn view(&self) -> (Task, Seq<u64>) {
        (self.task, self.pending@)
    }
}

impl View for LoadingSize {
    type V = Seq<u64>;

    closed spec fn view(&self) -> Seq<u64> {
        self.pending@
    }
}

impl View for Updating {
    type V = Seq<u64>;

    closed spec fn view(&self) -> Seq<u64> {
        self.pending@
    }
}

impl View for Replying {
    type V = (bool, Seq<u64>);

    closed spec fn view(&self) -> (bool, Seq<u64>) {
        (self.stop, self.pending@)
    }
}

impl View for Processing {
    type V = Seq<u64>;

    closed spec fn view(&self) -> Seq<u64> {
        self.pending@
    }
}

impl View for Pausing {
    type V = Seq<u64>;

    closed spec fn view(&self) -> Seq<u64> {
        self.pending@
    }
}

impl View for Parked {
    type V = Seq<u64>;

    closed spec fn view(&self) -> Seq<u64> {
        self.pending@
    }
}

impl View for Dispatching {
    type V = Seq<u64>;

    closed spec fn view(&self) -> Seq<u64> {
        self.pending@
    }
}

impl View for RunStep {
    type V = RunModel;

    open spec fn view(&self) -> RunModel {
        match *self {
            RunStep::CreateEpoll(_) => RunModel::CreateEpoll,
            RunStep::Watch { interest, token, rest } => RunModel::Watch {
                source: rest@,
                interest,
                token,
            },
            RunStep::Wait { max_events, rest: _ } => RunModel::Wait { max_events },
            RunStep::ReadEvent(rest) => RunModel::ReadEvent { task: rest@.0, pending: rest@.1 },
            RunStep::LoadSize(rest) => RunModel::LoadSize { pending: rest@ },
            RunStep::UpdateConfig { num_pages, rest } => RunModel::UpdateConfig {
                num_pages: num_pages as int,
                pending: rest@,
            },
            RunStep::Reply { result, rest } => RunModel::Reply {
                result,
                stop: rest@.0,
                pending: rest@.1,
            },
            RunStep::Process { kind, rest } => RunModel::Process { kind, pending: rest@ },
            RunStep::CheckPaused(rest) => RunModel::CheckPaused { pending: rest@ },
            RunStep::Park(rest) => RunModel::Park { pending: rest@ },
            RunStep::Unknown { token, rest } => RunModel::Unknown { token, pending: rest@ },
            RunStep::Exit(result) => RunModel::Exit(result),
        }
    }
}

/// Adds `source` to the epoll set.
pub open spec fn spec_watch(source: EventSource) -> RunModel {
    RunModel::Watch { source, interest: 1, token: source.spec_token() as u64 }
}

/// Waits for events.
pub open spec fn spec_wait() -> RunModel {
    RunModel::Wait { max_events: EPOLL_EVENTS_LEN }
}

/// The step after the epoll file descriptor has been created.
pub open spec fn after_create(created: Result<(), std::io::Error>) -> RunModel {
    match created {
        Ok(()) => spec_watch(EventSource::Resize),
        Err(e) => RunModel::Exit(Err(DeviceError::EpollCreateFd(e))),
    }
}

/// The step after `source` has been added to the epoll set.
pub open spec fn after_watch(source: EventSource, added: Result<(), std::io::Error>) -> RunModel {
    match added {
        Ok(()) => match source.spec_following() {
            Some(next) => spec_watch(next),
            None => spec_wait(),
        },
        Err(e) => RunModel::Exit(Err(DeviceError::EpollCtl(e))),
    }
}

/// The step that the first pending event leads to; more are waited for when none is
/// pending.
pub open spec fn dispatch(pending: Seq<u64>) -> RunModel {
    if pending.len() == 0 {
        spec_wait()
    } else {
        let token = spec_token_of(pending[0]);
        let pending = pending.drop_first();
        match spec_source(token) {
            Some(EventSource::Resize) => RunModel::ReadEvent { task: Task::Resize, pending },
            Some(EventSource::Inflate) => RunModel::ReadEvent {
                task: Task::Queue(QueueKind::Inflate),
                pending,
            },
            Some(EventSource::Deflate) => RunModel::ReadEvent {
                task: Task::Queue(QueueKind::Deflate),
                pending,
            },
            Some(EventSource::Kill) => RunModel::Exit(Ok(())),
            Some(EventSource::Pause) => RunModel::CheckPaused { pending },
            None => RunModel::Unknown { token, pending },
        }
    }
}

/// The step after waiting for events.
pub open spec fn after_wait(outcome: WaitOutcome) -> RunModel {
    match outcome {
        WaitOutcome::Ready(events) => dispatch(events@),
        WaitOutcome::Failed { interrupted, error } => if interrupted {
            spec_wait()
        } else {
            RunModel::Exit(Err(DeviceError::EpollWait(error)))
        },
    }
}

/// The step after an event counter has been read for `task`.
pub open spec fn after_read_event(
    task: Task,
    pending: Seq<u64>,
    count: Result<u64, std::io::Error>,
) -> RunModel {
    match count {
        Err(_) => RunModel::Exit(Ok(())),
        Ok(_) => match task {
            Task::Resize => RunModel::LoadSize { pending },
            Task::Queue(kind) => RunModel::Process { kind, pending },
        },
    }
}

/// The step after the requested size has been loaded.
pub open spec fn after_load(pending: Seq<u64>, size: u64) -> RunModel {
    RunModel::UpdateConfig { num_pages: pages_in(size), pending }
}

/// The step after the guest has been interrupted for the new configuration.
pub open spec fn after_update(
    pending: Seq<u64>,
    trigger: Result<(), std::io::Error>,
) -> RunModel {
    match spec_signal(trigger) {
        Ok(()) => RunModel::Reply { result: Ok(()), stop: false, pending },
        Err(e) => RunModel::Reply {
            result: Err(Error::ResizeTriggerFail(e)),
            stop: true,
            pending,
        },
    }
}

/// The step after the answer has been sent.
pub open spec fn after_reply(stop: bool, pending: Seq<u64>) -> RunModel {
    if stop {
        RunModel::Exit(Ok(()))
    } else {
        dispatch(pending)
    }
}

/// The step after the work on a queue.
pub open spec fn after_process(pending: Seq<u64>, result: Result<(), DeviceError>) -> RunModel {
    match result {
        Ok(()) => dispatch(pending),
        Err(_) => RunModel::Exit(Ok(())),
    }
}

/// The step after hearing whether the device is paused.
pub open spec fn after_check(pending: Seq<u64>, paused: bool) -> RunModel {
    if paused {
        RunModel::Park { pending }
    } else {
        dispatch(pending)
    }
}

/// What the worker thread holds.
pub struct BalloonEpollHandler<H: Host> {
    pub config: H::Config,
    pub resize: VirtioBalloonResize<H>,
    pub queues: Vec<H::Queue>,
    pub mem: H::Memory,
    pub interrupt_cb: H::Interrupt,
    pub inflate_queue_evt: H::Event,
    pub deflate_queue_evt: H::Event,
    pub kill_evt: H::Event,
    pub pause_evt: H::Event,
}

impl<H: Host> BalloonEpollHandler<H> {
    /// Begins the event loop.
    pub fn run(&self) -> (r: RunStep)
        ensures
            r@ == RunModel::CreateEpoll,
    {
        RunStep::CreateEpoll(Creating {  })
    }

    /// Begins the work on a queue.
    pub fn process_queue(&self, kind: QueueKind) -> (r: QueueStep)
        ensures
            r@ == StepModel::Fetch(Walk::start(kind)),
    {
        QueueStep::start(kind)
    }
}

fn watch(source: EventSource) -> (r: RunStep)
    ensures
        r@ == spec_watch(source),
{
    RunStep::Watch {
        interest: epollin(),
        token: source.token() as u64,
        rest: Watching { source },
    }
}

fn wait() -> (r: RunStep)
    ensures
        r@ == spec_wait(),
{
    RunStep::Wait { max_events: EPOLL_EVENTS_LEN, rest: Waiting {  } }
}

impl Creating {
    /// Goes on once the epoll file descriptor has been created.
    pub fn next(self, created: Result<(), std::io::Error>) -> (r: RunStep)
        ensures
            r@ == after_create(created),
    {
        match created {
            Ok(()) => watch(EventSource::Resize),
            Err(e) => RunStep::Exit(Err(DeviceError::EpollCreateFd(e))),
        }
    }
}

impl Watching {
    /// The source to be added.
    pub fn source(&self) -> (r: EventSource)
        ensures
            r == self@,
    {
        self.source
    }

    /// Goes on once the source has been added to the epoll set.
    pub fn next(self, added: Result<(), std::io::Error>) -> (r: RunStep)
        ensures
            r@ == after_watch(self@, added),
    {
        match added {
            Ok(()) => match self.source.following() {
                Some(next) => watch(next),
                None => wait(),
            },
            Err(e) => RunStep::Exit(Err(DeviceError::EpollCtl(e))),
        }
    }
}

impl Waiting {
    /// Goes on with the events that have occurred. A wait that a signal interrupted is
    /// taken up again.
    pub fn next(self, outcome: WaitOutcome) -> (r: RunStep)
        ensures
            r@ == after_wait(outcome),
    {
        match outcome {
            WaitOutcome::Ready(events) => Dispatching { pending: events }.next(),
            WaitOutcome::Failed { interrupted, error } => {
                if interrupted {
                    wait()
                } else {
                    RunStep::Exit(Err(DeviceError::EpollWait(error)))
                }
            },
        }
    }
}

impl Dispatching {
    /// Looks at the next event.
    pub fn next(self) -> (r: RunStep)
        ensures
            r@ == dispatch(self@),
    {
        let Dispatching { mut pending } = self;
        match pending.pop_front() {
            None => wait(),
            Some(data) => {
                let token: u16 = token_of(data);
                match source(token) {
                    Some(EventSource::Resize) => RunStep::ReadEvent(
                        ReadingEvent { task: Task::Resize, pending },
                    ),
                    Some(EventSource::Inflate) => RunStep::ReadEvent(
                        ReadingEvent { task: Task::Queue(QueueKind::Inflate), pending },
                    ),
                    Some(EventSource::Deflate) => RunStep::ReadEvent(
                        ReadingEvent { task: Task::Queue(QueueKind::Deflate), pending },
                    ),
                    Some(EventSource::Kill) => RunStep::Exit(Ok(())),
                    Some(EventSource::Pause) => RunStep::CheckPaused(Pausing { pending }),
                    None => RunStep::Unknown { token, rest: Dispatching { pending } },
                }
            },
        }
    }
}

impl ReadingEvent {
    /// What the event counter is read for.
    pub fn task(&self) -> (r: Task)
        ensures
            r == self@.0,
    {
        self.task
    }

    /// Goes on once the event counter has been read, or could not be.
    pub fn next(self, count: Result<u64, std::io::Error>) -> (r: RunStep)
        ensures
            r@ == after_read_event(self@.0, self@.1, count),
    {
        let ReadingEvent { task, pending } = self;
        match count {
            Err(_) => RunStep::Exit(Ok(())),
            Ok(_) => match task {
                Task::Resize => RunStep::LoadSize(LoadingSize { pending }),
                Task::Queue(kind) => RunStep::Process { kind, rest: Processing { pending } },
            },
        }
    }
}

impl LoadingSize {
    /// Goes on with the size that was last requested.
    pub fn next(self, size: u64) -> (r: RunStep)
        ensures
            r@ == after_load(self@, size),
    {
        RunStep::UpdateConfig {
            num_pages: num_pages(size),
            rest: Updating { pending: self.pending },
        }
    }
}

impl Updating {
    /// Goes on once the guest has been interrupted, or could not be.
    pub fn next(self, trigger: Result<(), std::io::Error>) -> (r: RunStep)
        ensures
            r@ == after_update(self@, trigger),
    {
        match signal(trigger) {
            Ok(()) => RunStep::Reply {
                result: Ok(()),
                rest: Replying { stop: false, pending: self.pending },
            },
            Err(e) => RunStep::Reply {
                result: Err(Error::ResizeTriggerFail(e)),
                rest: Replying { stop: true, pending: self.pending },
            },
        }
    }
}

impl Replying {
    /// Goes on once the answer has been sent.
    pub fn next(self) -> (r: RunStep)
        ensures
            r@ == after_reply(self@.0, self@.1),
    {
        if self.stop {
            RunStep::Exit(Ok(()))
        } else {
            Dispatching { pending: self.pending }.next()
        }
    }
}

impl Processing {
    /// Goes on once the work on the queue is done.
    pub fn next(self, result: Result<(), DeviceError>) -> (r: RunStep)
        ensures
            r@ == after_process(self@, result),
    {
        match result {
            Ok(()) => Dispatching { pending: self.pending }.next(),
            Err(_) => RunStep::Exit(Ok(())),
        }
    }
}

impl Pausing {
    /// Goes on once it is known whether the device is paused.
    pub fn next(self, paused: bool) -> (r: RunStep)
        ensures
            r@ == after_check(self@, paused),
    {
        if paused {
            RunStep::Park(Parked { pending: self.pending })
        } else {
            Dispatching { pending: self.pending }.next()
        }
    }
}

impl Parked {
    /// Goes on once woken up, which may have happened for no reason.
    pub fn next(self) -> (r: RunStep)
        ensures
            r@ == (RunModel::CheckPaused { pending: self@ }),
    {
        RunStep::CheckPaused(Pausing { pending: self.pending })
    }
}

} // verus!
