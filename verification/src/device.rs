//! The balloon device as the rest of the machine sees it.

use crate::error::ActivateError;
use crate::handler::BalloonEpollHandler;
use crate::host::Host;
use crate::queue::{NUM_QUEUES, QUEUE_SIZE};
use crate::resize::{ResizeStep, Storing, VirtioBalloonResize};
use vstd::prelude::*;

verus! {

/// The feature bit of a device that follows version 1 of the virtio standard.
pub const VIRTIO_F_VERSION_1: u32 = 32;

/// The number of a memory balloon among the virtio device types.
pub const TYPE_BALLOON: u32 = 5;

/// The features that the device offers.
pub const AVAIL_FEATURES: u64 = 0x1_0000_0000;

/// The balloon device.
pub struct Balloon<H: Host> {
    pub resize: VirtioBalloonResize<H>,
    pub kill_evt: Option<H::Event>,
    pub pause_evt: Option<H::Event>,
    pub avail_features: u64,
    pub acked_features: u64,
    pub config: H::Config,
    pub queue_evts: Option<Vec<H::Event>>,
    pub interrupt_cb: Option<H::Interrupt>,
    pub epoll_threads: Option<Vec<H::Thread>>,
    pub paused: H::Paused,
}

/// What the driver hands over on activation.
pub struct Setup<H: Host> {
    pub mem: H::Memory,
    pub interrupt_cb: H::Interrupt,
    pub queues: Vec<H::Queue>,
    pub inflate_queue_evt: H::Event,
    pub deflate_queue_evt: H::Event,
}

/// What an activation needs next.
pub enum ActivateStep<H: Host> {
    /// A new event counter and a duplicate of it, to stop the worker thread with.
    MakeKillEvent(MakingKillEvent<H>),
    /// A new event counter and a duplicate of it, to pause the worker thread with.
    MakePauseEvent(MakingPauseEvent<H>),
    /// A duplicate of a queue's event counter.
    CloneQueueEvent(CloningQueueEvent<H>),
    /// A duplicate of the event counter for resize requests.
    CloneResizeEvent(CloningResizeEvent<H>),
    /// The worker thread started.
    Spawn { handler: BalloonEpollHandler<H>, paused: H::Paused, rest: Spawning },
    /// Nothing any more.
    Done(Result<(), ActivateError>),
}

/// Waits for the event counter to stop the worker thread with.
pub struct MakingKillEvent<H: Host> {
    pub setup: Setup<H>,
}

/// Waits for the event counter to pause the worker thread with.
pub struct MakingPauseEvent<H: Host> {
    pub setup: Setup<H>,
    pub kill_evt: H::Event,
}

/// Waits for a duplicate of the inflate queue's event counter, and, once it has that as
/// `saved`, for one of the deflate queue's.
pub struct CloningQueueEvent<H: Host> {
    pub setup: Setup<H>,
    pub kill_evt: H::Event,
    pub pause_evt: H::Event,
    pub saved: Option<H::Event>,
}

/// Waits for a duplicate of the event counter for resize requests.
pub struct CloningResizeEvent<H: Host> {
    pub setup: Setup<H>,
    pub kill_evt: H::Event,
    pub pause_evt: H::Event,
}

/// Waits for the worker thread.
pub struct Spawning {}

/// What a reset gives back.
pub struct Released<H: Host> {
    /// The event counter to be raised, if the worker thread is to be stopped.
    pub kill_evt: Option<H::Event>,
    /// The way to interrupt the guest.
    pub interrupt_cb: H::Interrupt,
    /// The queues' event counters.
    pub queue_evts: Vec<H::Event>,
}

/// How an activation begins: refused, unless every queue is there and has its event
/// counter.
pub open spec fn spec_activate<H: Host>(
    mem: H::Memory,
    interrupt_cb: H::Interrupt,
    queues: Vec<H::Queue>,
    queue_evts: Vec<H::Event>,
) -> ActivateStep<H> {
    if queues@.len() != NUM_QUEUES || queue_evts@.len() != NUM_QUEUES {
        ActivateStep::Done(Err(ActivateError::BadActivate))
    } else {
        ActivateStep::MakeKillEvent(
            MakingKillEvent {
                setup: Setup {
                    mem,
                    interrupt_cb,
                    queues,
                    inflate_queue_evt: queue_evts@[0],
                    deflate_queue_evt: queue_evts@[1],
                },
            },
        )
    }
}

impl<H: Host> Balloon<H> {
    /// A device that has not been activated, and of which no feature has been
    /// acknowledged.
    pub open spec fn fresh(
        resize: VirtioBalloonResize<H>,
        config: H::Config,
        paused: H::Paused,
    ) -> Self {
        Balloon {
            resize,
            kill_evt: None,
            pause_evt: None,
            avail_features: AVAIL_FEATURES,
            acked_features: 0,
            config,
            queue_evts: None,
            interrupt_cb: None,
            epoll_threads: None,
            paused,
        }
    }

    /// The device once the driver has acknowledged `value`, of which it keeps what it
    /// had offered.
    pub open spec fn acknowledging(self, value: u64) -> Self {
        Balloon {
            acked_features: self.acked_features | (value & self.avail_features),
            ..self
        }
    }

    /// The device once a reset has begun.
    pub open spec fn resetting(self) -> Self {
        Balloon { pause_evt: None, ..self }
    }

    /// What a reset gives back.
    pub open spec fn released(self) -> Released<H> {
        Released {
            kill_evt: self.kill_evt,
            interrupt_cb: self.interrupt_cb->0,
            queue_evts: self.queue_evts->0,
        }
    }

    /// The device once a reset has given everything back.
    pub open spec fn after_reset(self) -> Self {
        Balloon { kill_evt: None, interrupt_cb: None, queue_evts: None, ..self }
    }

    /// Creates a device, given the way to request a new size.
    pub fn new(
        resize: Result<VirtioBalloonResize<H>, std::io::Error>,
        config: H::Config,
        paused: H::Paused,
    ) -> (r: Result<Self, std::io::Error>)
        ensures
            r == match resize {
                Ok(resize) => Ok(Balloon::fresh(resize, config, paused)),
                Err(e) => Err(e),
            },
    {
        match resize {
            Ok(resize) => {
                assert(1u64 << 32u32 == 0x1_0000_0000u64) by (bit_vector);
                Ok(
                    Balloon {
                        resize,
                        kill_evt: None,
                        pause_evt: None,
                        avail_features: 1u64 << VIRTIO_F_VERSION_1,
                        acked_features: 0,
                        config,
                        queue_evts: None,
                        interrupt_cb: None,
                        epoll_threads: None,
                        paused,
                    },
                )
            },
            Err(e) => Err(e),
        }
    }

    /// Requests that the balloon hold `size` bytes.
    pub fn resize(&self, size: u64) -> (r: ResizeStep)
        requires
            self.resize.rx is Some,
        ensures
            r == (ResizeStep::Store { size, rest: Storing {  } }),
    {
        self.resize.work(size)
    }

    /// Gives up the event counter that stops the worker thread, for it to be raised.
    pub fn take_kill_evt(&mut self) -> (r: Option<H::Event>)
        ensures
            r == old(self).kill_evt,
            *final(self) == (Balloon { kill_evt: None, ..*old(self) }),
    {
        self.kill_evt.take()
    }

    /// The number of the device type.
    pub fn device_type(&self) -> (r: u32)
        ensures
            r == TYPE_BALLOON,
    {
        TYPE_BALLOON
    }

    /// The room in each queue.
    pub fn queue_max_sizes(&self) -> (r: [u16; 2])
        ensures
            r@ == seq![QUEUE_SIZE, QUEUE_SIZE],
    {
        [QUEUE_SIZE, QUEUE_SIZE]
    }

    /// The features that the device offers.
    pub fn features(&self) -> (r: u64)
        ensures
            r == self.avail_features,
    {
        self.avail_features
    }

    /// Notes the features that the driver acknowledges, as far as they were offered.
    pub fn ack_features(&mut self, value: u64)
        ensures
            *final(self) == old(self).acknowledging(value),
    {
        let mut v: u64 = value;
        let avail: u64 = self.avail_features;
        let unrequested_features: u64 = v & !avail;
        assert(value & !(value & !avail) == value & avail) by (bit_vector);
        assert(value & !avail == 0 ==> value == value & avail) by (bit_vector);
        if unrequested_features != 0 {
            v = v & !unrequested_features;
        }
        self.acked_features = self.acked_features | v;
    }

    /// Begins an activation, provided that every queue is there and has its event
    /// counter.
    pub fn activate(
        &mut self,
        mem: H::Memory,
        interrupt_cb: H::Interrupt,
        queues: Vec<H::Queue>,
        queue_evts: Vec<H::Event>,
    ) -> (r: ActivateStep<H>)
        ensures
            *final(self) == *old(self),
            r == spec_activate::<H>(mem, interrupt_cb, queues, queue_evts),
    {
        if queues.len() != NUM_QUEUES || queue_evts.len() != NUM_QUEUES {
            return ActivateStep::Done(Err(ActivateError::BadActivate));
        }
        let mut queue_evts = queue_evts;
        let inflate_queue_evt = queue_evts.remove(0);
        let deflate_queue_evt = queue_evts.remove(0);
        ActivateStep::MakeKillEvent(
            MakingKillEvent {
                setup: Setup { mem, interrupt_cb, queues, inflate_queue_evt, deflate_queue_evt },
            },
        )
    }

    /// Begins a reset. Tells whether the worker thread has to be resumed before the reset
    /// can go on.
    pub fn begin_reset(&mut self) -> (r: bool)
        ensures
            r == old(self).pause_evt is Some,
            *final(self) == old(self).resetting(),
    {
        self.pause_evt.take().is_some()
    }

    /// Completes a reset, once the worker thread runs; nothing happens if it could not be
    /// resumed. The device must have been activated.
    pub fn reset(&mut self, resumed: bool) -> (r: Option<Released<H>>)
        requires
            resumed ==> old(self).interrupt_cb is Some && old(self).queue_evts is Some,
        ensures
            !resumed ==> r is None && *final(self) == *old(self),
            resumed ==> r == Some(old(self).released()) && *final(self) == old(
                self,
            ).after_reset(),
    {
        if !resumed {
            return None;
        }
        let kill_evt = self.take_kill_evt();
        let interrupt_cb = self.interrupt_cb.take().unwrap();
        let queue_evts = self.queue_evts.take().unwrap();
        Some(Released { kill_evt, interrupt_cb, queue_evts })
    }
}

impl<H: Host> MakingKillEvent<H> {
    /// `step` and the device `post` are what comes of the device `pre` and of `pair`.
    pub open spec fn leads_to(
        self,
        pre: Balloon<H>,
        pair: Result<(H::Event, H::Event), std::io::Error>,
        post: Balloon<H>,
        step: ActivateStep<H>,
    ) -> bool {
        match pair {
            Ok((own, worker)) => {
                &&& post == Balloon { kill_evt: Some(own), ..pre }
                &&& step == ActivateStep::MakePauseEvent(
                    MakingPauseEvent { setup: self.setup, kill_evt: worker },
                )
            },
            Err(_) => {
                &&& post == pre
                &&& step == ActivateStep::<H>::Done(Err(ActivateError::BadActivate))
            },
        }
    }

    /// Goes on with an event counter for the device and its duplicate for the worker.
    pub fn next(
        self,
        dev: &mut Balloon<H>,
        pair: Result<(H::Event, H::Event), std::io::Error>,
    ) -> (r: ActivateStep<H>)
        ensures
            self.leads_to(*old(dev), pair, *final(dev), r),
    {
        match pair {
            Ok((own, worker)) => {
                dev.kill_evt = Some(own);
                ActivateStep::MakePauseEvent(
                    MakingPauseEvent { setup: self.setup, kill_evt: worker },
                )
            },
            Err(_) => ActivateStep::Done(Err(ActivateError::BadActivate)),
        }
    }
}

impl<H: Host> MakingPauseEvent<H> {
    /// `step` and the device `post` are what comes of the device `pre` and of `pair`.
    pub open spec fn leads_to(
        self,
        pre: Balloon<H>,
        pair: Result<(H::Event, H::Event), std::io::Error>,
        post: Balloon<H>,
        step: ActivateStep<H>,
    ) -> bool {
        match pair {
            Ok((own, worker)) => {
                &&& post.interrupt_cb matches Some(cb) && cloned(self.setup.interrupt_cb, cb)
                &&& post == Balloon {
                    pause_evt: Some(own),
                    interrupt_cb: post.interrupt_cb,
                    ..pre
                }
                &&& step == ActivateStep::CloneQueueEvent(
                    CloningQueueEvent {
                        setup: self.setup,
                        kill_evt: self.kill_evt,
                        pause_evt: worker,
                        saved: None,
                    },
                )
            },
            Err(_) => {
                &&& post == pre
                &&& step == ActivateStep::<H>::Done(Err(ActivateError::BadActivate))
            },
        }
    }

    /// Goes on with an event counter for the device and its duplicate for the worker.
    pub fn next(
        self,
        dev: &mut Balloon<H>,
        pair: Result<(H::Event, H::Event), std::io::Error>,
    ) -> (r: ActivateStep<H>)
        ensures
            self.leads_to(*old(dev), pair, *final(dev), r),
    {
        match pair {
            Ok((own, worker)) => {
                dev.pause_evt = Some(own);
                dev.interrupt_cb = Some(self.setup.interrupt_cb.clone());
                ActivateStep::CloneQueueEvent(
                    CloningQueueEvent {
                        setup: self.setup,
                        kill_evt: self.kill_evt,
                        pause_evt: worker,
                        saved: None,
                    },
                )
            },
            Err(_) => ActivateStep::Done(Err(ActivateError::BadActivate)),
        }
    }
}

impl<H: Host> CloningQueueEvent<H> {
    /// `step` and the device `post` are what comes of the device `pre` and of `evt`.
    pub open spec fn leads_to(
        self,
        pre: Balloon<H>,
        evt: Result<H::Event, std::io::Error>,
        post: Balloon<H>,
        step: ActivateStep<H>,
    ) -> bool {
        match (evt, self.saved) {
            (Ok(evt), None) => {
                &&& post == pre
                &&& step == ActivateStep::CloneQueueEvent(
                    CloningQueueEvent { saved: Some(evt), ..self },
                )
            },
            (Ok(evt), Some(first)) => {
                &&& post.queue_evts matches Some(evts) && evts@ == seq![first, evt]
                &&& post == Balloon { queue_evts: post.queue_evts, ..pre }
                &&& step == ActivateStep::CloneResizeEvent(
                    CloningResizeEvent {
                        setup: self.setup,
                        kill_evt: self.kill_evt,
                        pause_evt: self.pause_evt,
                    },
                )
            },
            (Err(_), _) => {
                &&& post == pre
                &&& step == ActivateStep::<H>::Done(Err(ActivateError::BadActivate))
            },
        }
    }

    /// The event counter to be duplicated.
    pub fn source(&self) -> (r: &H::Event)
        ensures
            *r == match self.saved {
                None => self.setup.inflate_queue_evt,
                Some(_) => self.setup.deflate_queue_evt,
            },
    {
        match self.saved {
            None => &self.setup.inflate_queue_evt,
            Some(_) => &self.setup.deflate_queue_evt,
        }
    }

    /// Goes on with the duplicate.
    pub fn next(
        self,
        dev: &mut Balloon<H>,
        evt: Result<H::Event, std::io::Error>,
    ) -> (r: ActivateStep<H>)
        ensures
            self.leads_to(*old(dev), evt, *final(dev), r),
    {
        let CloningQueueEvent { setup, kill_evt, pause_evt, saved } = self;
        match evt {
            Ok(evt) => match saved {
                None => ActivateStep::CloneQueueEvent(
                    CloningQueueEvent { setup, kill_evt, pause_evt, saved: Some(evt) },
                ),
                Some(first) => {
                    let mut evts: Vec<H::Event> = Vec::new();
                    evts.push(first);
                    evts.push(evt);
                    assert(evts@ =~= seq![first, evt]);
                    dev.queue_evts = Some(evts);
                    ActivateStep::CloneResizeEvent(
                        CloningResizeEvent { setup, kill_evt, pause_evt },
                    )
                },
            },
            Err(_) => ActivateStep::Done(Err(ActivateError::BadActivate)),
        }
    }
}

impl<H: Host> CloningResizeEvent<H> {
    /// `step` and the device `post` are what comes of the device `pre` and of `evt`.
    pub open spec fn leads_to(
        self,
        pre: Balloon<H>,
        evt: Result<H::Event, std::io::Error>,
        post: Balloon<H>,
        step: ActivateStep<H>,
    ) -> bool {
        &&& post == pre
        &&& match evt {
            Ok(evt) => {
                &&& step matches ActivateStep::Spawn { handler, paused, rest }
                &&& cloned(pre.paused, paused)
                &&& cloned(pre.config, handler.config)
                &&& pre.resize.shared_with(handler.resize, evt)
                &&& handler.queues == self.setup.queues
                &&& handler.mem == self.setup.mem
                &&& handler.interrupt_cb == self.setup.interrupt_cb
                &&& handler.inflate_queue_evt == self.setup.inflate_queue_evt
                &&& handler.deflate_queue_evt == self.setup.deflate_queue_evt
                &&& handler.kill_evt == self.kill_evt
                &&& handler.pause_evt == self.pause_evt
            },
            Err(_) => step == ActivateStep::<H>::Done(Err(ActivateError::BadActivate)),
        }
    }

    /// Goes on with the duplicate: everything is there that the worker thread needs.
    pub fn next(
        self,
        dev: &mut Balloon<H>,
        evt: Result<H::Event, std::io::Error>,
    ) -> (r: ActivateStep<H>)
        ensures
            self.leads_to(*old(dev), evt, *final(dev), r),
    {
        let CloningResizeEvent { setup, kill_evt, pause_evt } = self;
        match dev.resize.try_clone(evt) {
            Ok(resize) => ActivateStep::Spawn {
                handler: BalloonEpollHandler {
                    config: dev.config.clone(),
                    resize,
                    queues: setup.queues,
                    mem: setup.mem,
                    interrupt_cb: setup.interrupt_cb,
                    inflate_queue_evt: setup.inflate_queue_evt,
                    deflate_queue_evt: setup.deflate_queue_evt,
                    kill_evt,
                    pause_evt,
                },
                paused: dev.paused.clone(),
                rest: Spawning {  },
            },
            Err(_) => ActivateStep::Done(Err(ActivateError::BadActivate)),
        }
    }
}

impl Spawning {
    /// `step` and the device `post` are what comes of the device `pre` and of `thread`.
    pub open spec fn leads_to<H: Host>(
        self,
        pre: Balloon<H>,
        thread: Result<H::Thread, std::io::Error>,
        post: Balloon<H>,
        step: ActivateStep<H>,
    ) -> bool {
        match thread {
            Ok(thread) => {
                &&& post.epoll_threads matches Some(threads) && threads@ == seq![thread]
                &&& post == Balloon { epoll_threads: post.epoll_threads, ..pre }
                &&& step == ActivateStep::<H>::Done(Ok(()))
            },
            Err(_) => {
                &&& post == pre
                &&& step == ActivateStep::<H>::Done(Err(ActivateError::BadActivate))
            },
        }
    }

    /// Ends the activation once the worker thread runs, or could not be started.
    pub fn next<H: Host>(
        self,
        dev: &mut Balloon<H>,
        thread: Result<H::Thread, std::io::Error>,
    ) -> (r: ActivateStep<H>)
        ensures
            self.leads_to(*old(dev), thread, *final(dev), r),
    {
        match thread {
            Ok(thread) => {
                let mut threads: Vec<H::Thread> = Vec::new();
                threads.push(thread);
                assert(threads@ =~= seq![thread]);
                dev.epoll_threads = Some(threads);
                ActivateStep::Done(Ok(()))
            },
            Err(_) => ActivateStep::Done(Err(ActivateError::BadActivate)),
        }
    }
}

} // verus!
