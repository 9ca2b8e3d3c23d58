//! What holds of the device over its life.

use crate::device::{
    spec_activate, ActivateStep, Balloon, CloningQueueEvent, CloningResizeEvent, MakingKillEvent,
    MakingPauseEvent, Spawning,
};
use crate::error::ActivateError;
use crate::host::Host;
use crate::queue::NUM_QUEUES;
use crate::resize::VirtioBalloonResize;
use vstd::prelude::*;

verus! {

/// Every feature that the driver has acknowledged was offered.
pub open spec fn acked_were_offered<H: Host>(dev: Balloon<H>) -> bool {
    dev.acked_features & !dev.avail_features == 0
}

/// No feature has been acknowledged of a new device that was not offered.
pub proof fn new_device_has_no_stray_feature<H: Host>(
    resize: VirtioBalloonResize<H>,
    config: H::Config,
    paused: H::Paused,
)
    ensures
        acked_were_offered(Balloon::<H>::fresh(resize, config, paused)),
{
    assert(0u64 & !0x1_0000_0000u64 == 0) by (bit_vector);
}

/// Whatever the driver acknowledges, no feature is noted that was not offered.
pub proof fn only_offered_features_are_noted<H: Host>(dev: Balloon<H>, value: u64)
    requires
        acked_were_offered(dev),
    ensures
        acked_were_offered(dev.acknowledging(value)),
{
    let (acked, avail) = (dev.acked_features, dev.avail_features);
    assert(acked & !avail == 0 ==> (acked | (value & avail)) & !avail == 0) by (bit_vector);
}

/// A feature that was acknowledged stays so.
pub proof fn features_are_not_taken_back<H: Host>(dev: Balloon<H>, value: u64)
    ensures
        dev.acked_features & dev.acknowledging(value).acked_features == dev.acked_features,
{
    let (acked, avail) = (dev.acked_features, dev.avail_features);
    assert(acked & (acked | (value & avail)) == acked) by (bit_vector);
}

/// Acknowledging features one after the other, in either order, is the same as
/// acknowledging them together.
pub proof fn acknowledgements_add_up<H: Host>(dev: Balloon<H>, a: u64, b: u64)
    ensures
        dev.acknowledging(a).acknowledging(b) == dev.acknowledging(a | b),
        dev.acknowledging(b).acknowledging(a) == dev.acknowledging(a | b),
        dev.acknowledging(a).acknowledging(a) == dev.acknowledging(a),
{
    let (x, v) = (dev.acked_features, dev.avail_features);
    assert((x | (a & v)) | (b & v) == x | ((a | b) & v)) by (bit_vector);
    assert((x | (b & v)) | (a & v) == x | ((a | b) & v)) by (bit_vector);
    assert((x | (a & v)) | (a & v) == x | (a & v)) by (bit_vector);
}

/// What goes into an activation in which nothing fails: the driver's set-up, and what the
/// outside answers to each step.
pub struct Activation<H: Host> {
    pub mem: H::Memory,
    pub interrupt_cb: H::Interrupt,
    pub queues: Vec<H::Queue>,
    pub queue_evts: Vec<H::Event>,
    pub kill: (H::Event, H::Event),
    pub pause: (H::Event, H::Event),
    pub inflate: H::Event,
    pub deflate: H::Event,
    pub resize: H::Event,
    pub thread: H::Thread,
}

/// The device goes through `devs` and the activation through `steps`, every one of which
/// succeeds.
pub open spec fn activates<H: Host>(
    a: Activation<H>,
    devs: Seq<Balloon<H>>,
    steps: Seq<ActivateStep<H>>,
) -> bool {
    &&& devs.len() == 7
    &&& steps.len() == 7
    &&& steps[0] == spec_activate::<H>(a.mem, a.interrupt_cb, a.queues, a.queue_evts)
    &&& steps[0] matches ActivateStep::MakeKillEvent(s) && s.leads_to(
        devs[0],
        Ok(a.kill),
        devs[1],
        steps[1],
    )
    &&& steps[1] matches ActivateStep::MakePauseEvent(s) && s.leads_to(
        devs[1],
        Ok(a.pause),
        devs[2],
        steps[2],
    )
    &&& steps[2] matches ActivateStep::CloneQueueEvent(s) && s.leads_to(
        devs[2],
        Ok(a.inflate),
        devs[3],
        steps[3],
    )
    &&& steps[3] matches ActivateStep::CloneQueueEvent(s) && s.leads_to(
        devs[3],
        Ok(a.deflate),
        devs[4],
        steps[4],
    )
    &&& steps[4] matches ActivateStep::CloneResizeEvent(s) && s.leads_to(
        devs[4],
        Ok(a.resize),
        devs[5],
        steps[5],
    )
    &&& steps[5] matches ActivateStep::Spawn { handler, paused, rest } && rest.leads_to(
        devs[5],
        Ok(a.thread),
        devs[6],
        steps[6],
    )
}

/// An activation in which nothing fails succeeds. The worker thread gets the driver's
/// queues, memory, interrupt and event counters, each where it belongs, and the other end
/// of the device's own; the device keeps duplicates of what a reset gives back, and is
/// otherwise as it was.
pub proof fn activation_hands_everything_over<H: Host>(
    a: Activation<H>,
    devs: Seq<Balloon<H>>,
    steps: Seq<ActivateStep<H>>,
)
    requires
        activates(a, devs, steps),
    ensures
        a.queues@.len() == NUM_QUEUES && a.queue_evts@.len() == NUM_QUEUES,
        steps[6] == ActivateStep::<H>::Done(Ok(())),
        steps[5] matches ActivateStep::Spawn { handler, paused, rest } && {
            &&& handler.queues == a.queues
            &&& handler.mem == a.mem
            &&& handler.interrupt_cb == a.interrupt_cb
            &&& handler.inflate_queue_evt == a.queue_evts@[0]
            &&& handler.deflate_queue_evt == a.queue_evts@[1]
            &&& handler.kill_evt == a.kill.1
            &&& handler.pause_evt == a.pause.1
            &&& cloned(devs[0].config, handler.config)
            &&& cloned(devs[0].paused, paused)
            &&& devs[0].resize.shared_with(handler.resize, a.resize)
        },
        ({
            let dev = devs[6];
            &&& dev.kill_evt == Some(a.kill.0)
            &&& dev.pause_evt == Some(a.pause.0)
            &&& dev.interrupt_cb matches Some(cb) && cloned(a.interrupt_cb, cb)
            &&& dev.queue_evts matches Some(evts) && evts@ == seq![a.inflate, a.deflate]
            &&& dev.epoll_threads matches Some(threads) && threads@ == seq![a.thread]
            &&& dev == Balloon {
                kill_evt: dev.kill_evt,
                pause_evt: dev.pause_evt,
                interrupt_cb: dev.interrupt_cb,
                queue_evts: dev.queue_evts,
                epoll_threads: dev.epoll_threads,
                ..devs[0]
            }
        }),
{
}

/// A reset after an activation has the worker thread resumed, and gives back the
/// interrupt, the queues' event counters and the event counter that stops the thread. It
/// can go through, and the device is left as it was before, but for the thread.
pub proof fn reset_undoes_activation<H: Host>(
    a: Activation<H>,
    devs: Seq<Balloon<H>>,
    steps: Seq<ActivateStep<H>>,
)
    requires
        activates(a, devs, steps),
        devs[0].kill_evt is None,
        devs[0].pause_evt is None,
        devs[0].interrupt_cb is None,
        devs[0].queue_evts is None,
    ensures
        ({
            let dev = devs[6].resetting();
            &&& devs[6].pause_evt is Some
            &&& dev.interrupt_cb is Some
            &&& dev.queue_evts is Some
            &&& dev.released().kill_evt == Some(a.kill.0)
            &&& cloned(a.interrupt_cb, dev.released().interrupt_cb)
            &&& dev.released().queue_evts@ == seq![a.inflate, a.deflate]
            &&& dev.after_reset() == Balloon { epoll_threads: dev.epoll_threads, ..devs[0] }
        }),
{
    activation_hands_everything_over(a, devs, steps);
}

/// A new device offers version 1 of the standard and nothing else, has nothing acknowledged,
/// and holds none of what an activation gives it.
pub proof fn new_device_is_inactive<H: Host>(
    resize: VirtioBalloonResize<H>,
    config: H::Config,
    paused: H::Paused,
)
    ensures
        ({
            let dev = Balloon::<H>::fresh(resize, config, paused);
            &&& dev.resize == resize
            &&& dev.config == config
            &&& dev.paused == paused
            &&& dev.avail_features == 1u64 << 32u64
            &&& dev.acked_features == 0
            &&& dev.kill_evt is None
            &&& dev.pause_evt is None
            &&& dev.queue_evts is None
            &&& dev.interrupt_cb is None
            &&& dev.epoll_threads is None
        }),
{
    assert(1u64 << 32u64 == 0x1_0000_0000u64) by (bit_vector);
}

/// A feature is noted if and only if it was before, or it was both offered and acknowledged
/// now. Nothing else about the device changes.
pub proof fn offered_features_are_noted<H: Host>(dev: Balloon<H>, value: u64, bit: u64)
    requires
        bit < 64,
    ensures
        ({
            let after = dev.acknowledging(value);
            &&& (after.acked_features >> bit) & 1 == 1 <==> (dev.acked_features >> bit) & 1 == 1
                || ((value >> bit) & 1 == 1 && (dev.avail_features >> bit) & 1 == 1)
            &&& after == Balloon { acked_features: after.acked_features, ..dev }
        }),
{
    let (x, v) = (dev.acked_features, dev.avail_features);
    assert(((x | (value & v)) >> bit) & 1 == 1 <==> (x >> bit) & 1 == 1 || ((value >> bit) & 1 == 1
        && (v >> bit) & 1 == 1)) by (bit_vector)
        requires
            bit < 64,
    ;
}

/// A reset takes back the pause event first; it gives back the interrupt, the queues' event
/// counters and the kill event exactly as the device held them, and leaves everything else.
pub proof fn reset_gives_back_what_was_held<H: Host>(
    dev: Balloon<H>,
    interrupt_cb: H::Interrupt,
    queue_evts: Vec<H::Event>,
)
    requires
        dev.interrupt_cb == Some(interrupt_cb),
        dev.queue_evts == Some(queue_evts),
    ensures
        dev.resetting() == (Balloon { pause_evt: None, ..dev }),
        dev.released().interrupt_cb == interrupt_cb,
        dev.released().queue_evts == queue_evts,
        dev.released().kill_evt == dev.kill_evt,
        dev.after_reset() == (Balloon {
            kill_evt: None,
            interrupt_cb: None,
            queue_evts: None,
            ..dev
        }),
{
}

/// An activation is refused from the start if and only if there are not two queues, or not
/// two event counters for them; otherwise it goes on with what the driver handed over, the
/// first event counter for the inflate queue and the second for the deflate queue.
pub proof fn activation_needs_two_queues<H: Host>(
    mem: H::Memory,
    interrupt_cb: H::Interrupt,
    queues: Vec<H::Queue>,
    queue_evts: Vec<H::Event>,
)
    ensures
        ({
            let step = spec_activate::<H>(mem, interrupt_cb, queues, queue_evts);
            if queues@.len() == 2 && queue_evts@.len() == 2 {
                step matches ActivateStep::MakeKillEvent(next) && {
                    &&& next.setup.mem == mem
                    &&& next.setup.interrupt_cb == interrupt_cb
                    &&& next.setup.queues == queues
                    &&& next.setup.inflate_queue_evt == queue_evts@[0]
                    &&& next.setup.deflate_queue_evt == queue_evts@[1]
                }
            } else {
                step == ActivateStep::<H>::Done(Err(ActivateError::BadActivate))
            }
        }),
{
}

/// A kill event that was made is kept by the device, whatever the device holds, and the
/// activation goes on; one that was not ends it, and the device is as it was.
pub proof fn kill_event_is_kept<H: Host>(
    s: MakingKillEvent<H>,
    pre: Balloon<H>,
    pair: Result<(H::Event, H::Event), std::io::Error>,
    post: Balloon<H>,
    step: ActivateStep<H>,
)
    requires
        s.leads_to(pre, pair, post, step),
    ensures
        match pair {
            Ok((own, worker)) => {
                &&& post == (Balloon { kill_evt: Some(own), ..pre })
                &&& step matches ActivateStep::MakePauseEvent(next) && next.setup == s.setup
                    && next.kill_evt == worker
            },
            Err(_) => post == pre && step == ActivateStep::<H>::Done(
                Err(ActivateError::BadActivate),
            ),
        },
{
}

/// A pause event that was made is kept by the device, together with a way to interrupt the
/// guest, whatever the device holds, and the activation goes on; one that was not ends it,
/// and the device is as it was.
pub proof fn pause_event_is_kept<H: Host>(
    s: MakingPauseEvent<H>,
    pre: Balloon<H>,
    pair: Result<(H::Event, H::Event), std::io::Error>,
    post: Balloon<H>,
    step: ActivateStep<H>,
)
    requires
        s.leads_to(pre, pair, post, step),
    ensures
        match pair {
            Ok((own, worker)) => {
                &&& post == (Balloon {
                    pause_evt: Some(own),
                    interrupt_cb: post.interrupt_cb,
                    ..pre
                })
                &&& post.interrupt_cb matches Some(cb) && cloned(s.setup.interrupt_cb, cb)
                &&& step matches ActivateStep::CloneQueueEvent(next) && next.setup == s.setup
                    && next.kill_evt == s.kill_evt && next.pause_evt == worker
                    && next.saved is None
            },
            Err(_) => post == pre && step == ActivateStep::<H>::Done(
                Err(ActivateError::BadActivate),
            ),
        },
{
}

/// The duplicates of the queues' event counters are kept by the device, in the order of the
/// queues, once there are both; one that could not be made ends the activation, and the
/// device is as it was.
pub proof fn queue_events_are_kept<H: Host>(
    s: CloningQueueEvent<H>,
    pre: Balloon<H>,
    evt: Result<H::Event, std::io::Error>,
    post: Balloon<H>,
    step: ActivateStep<H>,
)
    requires
        s.leads_to(pre, evt, post, step),
    ensures
        match evt {
            Ok(evt) => match s.saved {
                None => {
                    &&& post == pre
                    &&& step matches ActivateStep::CloneQueueEvent(next) && next.setup == s.setup
                        && next.kill_evt == s.kill_evt && next.pause_evt == s.pause_evt
                        && next.saved == Some(evt)
                },
                Some(first) => {
                    &&& post == (Balloon { queue_evts: post.queue_evts, ..pre })
                    &&& post.queue_evts matches Some(evts) && evts@.len() == 2 && evts@[0] == first
                        && evts@[1] == evt
                    &&& step matches ActivateStep::CloneResizeEvent(next) && next.setup == s.setup
                        && next.kill_evt == s.kill_evt && next.pause_evt == s.pause_evt
                },
            },
            Err(_) => post == pre && step == ActivateStep::<H>::Done(
                Err(ActivateError::BadActivate),
            ),
        },
{
}

/// The worker thread is started with the driver's queues, memory, interrupt and event
/// counters and with its own ends of what it shares with the device, whatever the device
/// holds; without its resize event the activation ends. Either way the device is as it was.
pub proof fn worker_gets_its_share<H: Host>(
    s: CloningResizeEvent<H>,
    pre: Balloon<H>,
    evt: Result<H::Event, std::io::Error>,
    post: Balloon<H>,
    step: ActivateStep<H>,
)
    requires
        s.leads_to(pre, evt, post, step),
    ensures
        post == pre,
        match evt {
            Ok(evt) => step matches ActivateStep::Spawn { handler, paused, rest } && {
                &&& cloned(pre.paused, paused)
                &&& cloned(pre.config, handler.config)
                &&& cloned(pre.resize.size, handler.resize.size)
                &&& cloned(pre.resize.tx, handler.resize.tx)
                &&& handler.resize.rx is None
                &&& handler.resize.evt == evt
                &&& handler.queues == s.setup.queues
                &&& handler.mem == s.setup.mem
                &&& handler.interrupt_cb == s.setup.interrupt_cb
                &&& handler.inflate_queue_evt == s.setup.inflate_queue_evt
                &&& handler.deflate_queue_evt == s.setup.deflate_queue_evt
                &&& handler.kill_evt == s.kill_evt
                &&& handler.pause_evt == s.pause_evt
            },
            Err(_) => step == ActivateStep::<H>::Done(Err(ActivateError::BadActivate)),
        },
{
}

/// An activation succeeds when the worker thread runs, and the device keeps the thread; it
/// fails when the thread could not be started, and the device is as it was.
pub proof fn running_thread_completes_the_activation<H: Host>(
    s: Spawning,
    pre: Balloon<H>,
    thread: Result<H::Thread, std::io::Error>,
    post: Balloon<H>,
    step: ActivateStep<H>,
)
    requires
        s.leads_to(pre, thread, post, step),
    ensures
        match thread {
            Ok(thread) => {
                &&& post == (Balloon { epoll_threads: post.epoll_threads, ..pre })
                &&& post.epoll_threads matches Some(threads) && threads@.len() == 1 && threads@[0]
                    == thread
                &&& step == ActivateStep::<H>::Done(Ok(()))
            },
            Err(_) => post == pre && step == ActivateStep::<H>::Done(
                Err(ActivateError::BadActivate),
            ),
        },
{
}

/// Whatever state the device is in, an activation with two queues, two event counters for
/// them and no failure outside goes through every step, up to the worker thread and to
/// success; at each point it is enough that the step that was reached is followed.
pub proof fn activation_succeeds<H: Host>(
    a: Activation<H>,
    devs: Seq<Balloon<H>>,
    steps: Seq<ActivateStep<H>>,
)
    requires
        a.queues@.len() == 2,
        a.queue_evts@.len() == 2,
        devs.len() == 7,
        steps.len() == 7,
        steps[0] == spec_activate::<H>(a.mem, a.interrupt_cb, a.queues, a.queue_evts),
        steps[0] matches ActivateStep::MakeKillEvent(s) ==> s.leads_to(
            devs[0],
            Ok(a.kill),
            devs[1],
            steps[1],
        ),
        steps[1] matches ActivateStep::MakePauseEvent(s) ==> s.leads_to(
            devs[1],
            Ok(a.pause),
            devs[2],
            steps[2],
        ),
        steps[2] matches ActivateStep::CloneQueueEvent(s) ==> s.leads_to(
            devs[2],
            Ok(a.inflate),
            devs[3],
            steps[3],
        ),
        steps[3] matches ActivateStep::CloneQueueEvent(s) ==> s.leads_to(
            devs[3],
            Ok(a.deflate),
            devs[4],
            steps[4],
        ),
        steps[4] matches ActivateStep::CloneResizeEvent(s) ==> s.leads_to(
            devs[4],
            Ok(a.resize),
            devs[5],
            steps[5],
        ),
        steps[5] matches ActivateStep::Spawn { handler, paused, rest } ==> rest.leads_to(
            devs[5],
            Ok(a.thread),
            devs[6],
            steps[6],
        ),
    ensures
        steps[0] is MakeKillEvent,
        steps[1] is MakePauseEvent,
        steps[2] is CloneQueueEvent,
        steps[3] is CloneQueueEvent,
        steps[4] is CloneResizeEvent,
        steps[5] is Spawn,
        steps[6] == ActivateStep::<H>::Done(Ok(())),
        activates(a, devs, steps),
        devs[6].kill_evt == Some(a.kill.0),
        devs[6].pause_evt == Some(a.pause.0),
        devs[6].acked_features == devs[0].acked_features,
        devs[6].avail_features == devs[0].avail_features,
{
}

/// An end that answers requests shares the size and the channel with the one that makes
/// them, has an event counter of its own, and can make no request itself.
pub proof fn answering_end_makes_no_requests<H: Host>(
    end: VirtioBalloonResize<H>,
    other: VirtioBalloonResize<H>,
    evt: H::Event,
)
    ensures
        end.shared_with(other, evt) <==> cloned(end.size, other.size) && cloned(end.tx, other.tx)
            && other.rx is None && other.evt == evt,
{
}

} // verus!
