//! What holds of the event loop, and of it together with a resize request.

use crate::config::pages_in;
use crate::error::{DeviceError, Error};
use crate::handler::{
    after_check, after_create, after_load, after_process, after_read_event, after_reply,
    after_update, after_wait, after_watch, dispatch, spec_source, spec_token_of, spec_wait,
    spec_watch, EventSource, RunModel, RunStep, Task, WaitOutcome,
};
use crate::queue::{spec_signal, QueueKind};
use crate::resize::{
    after_notify, after_receive, Receiving, ResizeStep, EVENT_INCREMENT, INITIAL_SIZE,
};
use std::collections::VecDeque;
use std::sync::mpsc::RecvError;
use vstd::prelude::*;

verus! {

/// Every source is told by its token: what epoll reports for it leads back to it.
pub proof fn tokens_tell_sources(source: EventSource, other: EventSource)
    ensures
        spec_source(spec_token_of(source.spec_token() as u64)) == Some(source),
        source.spec_token() == other.spec_token() ==> source == other,
{
}

/// The sources that are added to the epoll set from `source` on, when nothing fails.
pub open spec fn watched_from(source: EventSource, fuel: nat) -> Seq<EventSource>
    decreases fuel,
{
    if fuel == 0 {
        Seq::empty()
    } else {
        match after_watch(source, Ok(())) {
            RunModel::Watch { source: next, .. } => seq![source] + watched_from(
                next,
                (fuel - 1) as nat,
            ),
            _ => seq![source],
        }
    }
}

/// When nothing fails, the loop adds every source to the epoll set, each once, and then
/// waits for events.
pub proof fn all_sources_are_watched()
    ensures
        after_create(Ok(())) == spec_watch(EventSource::Resize),
        watched_from(EventSource::Resize, 5) == seq![
            EventSource::Resize,
            EventSource::Inflate,
            EventSource::Deflate,
            EventSource::Kill,
            EventSource::Pause,
        ],
        after_watch(EventSource::Pause, Ok(())) == spec_wait(),
        forall|source: EventSource| #[trigger]
            watched_from(EventSource::Resize, 5).contains(source),
{
    reveal_with_fuel(watched_from, 6);
    let all = seq![
        EventSource::Resize,
        EventSource::Inflate,
        EventSource::Deflate,
        EventSource::Kill,
        EventSource::Pause,
    ];
    assert(watched_from(EventSource::Resize, 5) =~= all);
    assert(all[0] == EventSource::Resize);
    assert(all[1] == EventSource::Inflate);
    assert(all[2] == EventSource::Deflate);
    assert(all[3] == EventSource::Kill);
    assert(all[4] == EventSource::Pause);
    assert forall|source: EventSource| #[trigger] all.contains(source) by {
        match source {
            EventSource::Resize => assert(all[0] == source),
            EventSource::Inflate => assert(all[1] == source),
            EventSource::Deflate => assert(all[2] == source),
            EventSource::Kill => assert(all[3] == source),
            EventSource::Pause => assert(all[4] == source),
        }
    }
}

/// What the outside answers while one event is served.
pub struct Answers {
    /// The event counter.
    pub count: Result<u64, std::io::Error>,
    /// The size that was last requested.
    pub size: u64,
    /// The outcome of the interrupt for a new configuration.
    pub trigger: Result<(), std::io::Error>,
    /// The outcome of the work on a queue.
    pub processed: Result<(), DeviceError>,
    /// How often the thread wakes up while the device is still paused.
    pub wakeups: nat,
}

/// What the loop does to the outside.
pub enum LoopAct {
    /// An event counter is read.
    Read(Task),
    /// The configuration is set, and the guest interrupted.
    Update { num_pages: int },
    /// A resize request is answered.
    Reply(Result<(), Error>),
    /// A queue is worked on.
    Process(QueueKind),
    /// The thread goes to sleep.
    Park,
}

/// The thread going to sleep `n` times.
pub open spec fn parks(n: nat) -> Seq<LoopAct> {
    Seq::new(n, |i: int| LoopAct::Park)
}

/// What is done for one event, and whether the loop ends with it.
pub open spec fn event_acts(data: u64, answers: Answers) -> (Seq<LoopAct>, bool) {
    match spec_source(spec_token_of(data)) {
        None => (Seq::empty(), false),
        Some(EventSource::Kill) => (Seq::empty(), true),
        Some(EventSource::Pause) => (parks(answers.wakeups), false),
        Some(EventSource::Resize) => if answers.count is Err {
            (seq![LoopAct::Read(Task::Resize)], true)
        } else {
            let result = match spec_signal(answers.trigger) {
                Ok(()) => Ok(()),
                Err(e) => Err(Error::ResizeTriggerFail(e)),
            };
            (
                seq![
                    LoopAct::Read(Task::Resize),
                    LoopAct::Update { num_pages: pages_in(answers.size) },
                    LoopAct::Reply(result),
                ],
                answers.trigger is Err,
            )
        },
        Some(EventSource::Inflate) => queue_acts(QueueKind::Inflate, answers),
        Some(EventSource::Deflate) => queue_acts(QueueKind::Deflate, answers),
    }
}

/// What is done for new descriptors on a queue, and whether the loop ends with it.
pub open spec fn queue_acts(kind: QueueKind, answers: Answers) -> (Seq<LoopAct>, bool) {
    if answers.count is Err {
        (seq![LoopAct::Read(Task::Queue(kind))], true)
    } else {
        (
            seq![LoopAct::Read(Task::Queue(kind)), LoopAct::Process(kind)],
            answers.processed is Err,
        )
    }
}

/// What is done for a batch of events, one after the other, up to the one with which the
/// loop ends, and where that leaves the loop.
pub open spec fn batch_acts(events: Seq<u64>, answers: Seq<Answers>) -> (Seq<LoopAct>, RunModel)
    decreases events.len(),
{
    if events.len() == 0 {
        (Seq::empty(), spec_wait())
    } else {
        let (acts, stop) = event_acts(events[0], answers[0]);
        if stop {
            (acts, RunModel::Exit(Ok(())))
        } else {
            let (more, end) = batch_acts(events.drop_first(), answers.drop_first());
            (acts + more, end)
        }
    }
}

/// What the steps do from a pause on, when the thread wakes up `wakeups` times before the
/// device is resumed, and where that leads.
pub open spec fn pause_run(pending: Seq<u64>, wakeups: nat) -> (Seq<LoopAct>, RunModel)
    decreases wakeups,
{
    if wakeups == 0 {
        (Seq::empty(), after_check(pending, false))
    } else {
        match after_check(pending, true) {
            RunModel::Park { pending } => {
                let (acts, end) = pause_run(pending, (wakeups - 1) as nat);
                (seq![LoopAct::Park] + acts, end)
            },
            step => (Seq::empty(), step),
        }
    }
}

/// What the steps do from `step`, the first for an event, up to the first for the next
/// event, and which that is.
pub open spec fn event_run(step: RunModel, answers: Answers) -> (Seq<LoopAct>, RunModel) {
    match step {
        RunModel::Unknown { token: _, pending } => (Seq::empty(), dispatch(pending)),
        RunModel::CheckPaused { pending } => pause_run(pending, answers.wakeups),
        RunModel::ReadEvent { task, pending } => {
            let (acts, end) = match after_read_event(task, pending, answers.count) {
                RunModel::LoadSize { pending } => resize_run(pending, answers),
                RunModel::Process { kind, pending } => (
                    seq![LoopAct::Process(kind)],
                    after_process(pending, answers.processed),
                ),
                end => (Seq::empty(), end),
            };
            (seq![LoopAct::Read(task)] + acts, end)
        },
        end => (Seq::empty(), end),
    }
}

/// What the steps do for a resize request, once its event counter has been read, and
/// where that leads.
pub open spec fn resize_run(pending: Seq<u64>, answers: Answers) -> (Seq<LoopAct>, RunModel) {
    match after_load(pending, answers.size) {
        RunModel::UpdateConfig { num_pages, pending } => match after_update(
            pending,
            answers.trigger,
        ) {
            RunModel::Reply { result, stop, pending } => (
                seq![LoopAct::Update { num_pages }, LoopAct::Reply(result)],
                after_reply(stop, pending),
            ),
            end => (seq![LoopAct::Update { num_pages }], end),
        },
        end => (Seq::empty(), end),
    }
}

/// What the steps do from `step` on, with one answer for each event, and where they end:
/// with a wait, or with the loop.
pub open spec fn loop_run(step: RunModel, answers: Seq<Answers>) -> (Seq<LoopAct>, RunModel)
    decreases answers.len(),
{
    if step is Wait || step is Exit || answers.len() == 0 {
        (Seq::empty(), step)
    } else {
        let (acts, next) = event_run(step, answers[0]);
        let (more, end) = loop_run(next, answers.drop_first());
        (acts + more, end)
    }
}

/// What the steps do with the events `pending`, and where they end.
pub open spec fn batch_run(pending: Seq<u64>, answers: Seq<Answers>) -> (Seq<LoopAct>, RunModel) {
    loop_run(dispatch(pending), answers)
}

/// While the device is paused, the thread sleeps: each time it wakes up early it goes
/// back to sleep, and no event is lost.
pub proof fn paused_thread_sleeps(pending: Seq<u64>, wakeups: nat)
    ensures
        pause_run(pending, wakeups) == (parks(wakeups), dispatch(pending)),
    decreases wakeups,
{
    if wakeups == 0 {
        assert(parks(0) =~= Seq::empty());
    } else {
        paused_thread_sleeps(pending, (wakeups - 1) as nat);
        assert(parks(wakeups) =~= seq![LoopAct::Park] + parks((wakeups - 1) as nat));
    }
}

/// An event is served in full before the next one is looked at, and the loop goes on with
/// that one unless it ends.
pub proof fn event_is_served(pending: Seq<u64>, answers: Answers)
    requires
        pending.len() > 0,
    ensures
        ({
            let (acts, stop) = event_acts(pending[0], answers);
            event_run(dispatch(pending), answers) == (
                acts,
                if stop {
                    RunModel::Exit(Ok(()))
                } else {
                    dispatch(pending.drop_first())
                },
            )
        }),
{
    let (acts, stop) = event_acts(pending[0], answers);
    paused_thread_sleeps(pending.drop_first(), answers.wakeups);
    assert(event_run(dispatch(pending), answers).0 =~= acts);
}

/// The events of a batch are served one after the other, in the order in which they came,
/// each once, up to one with which the loop ends; after the last, the loop waits for
/// more. No event makes the loop end with an error.
pub proof fn batch_is_served_in_order(events: Seq<u64>, answers: Seq<Answers>)
    requires
        answers.len() == events.len(),
    ensures
        batch_run(events, answers) == batch_acts(events, answers),
        batch_run(events, answers).1 == spec_wait() || batch_run(events, answers).1
            == RunModel::Exit(Ok(())),
    decreases events.len(),
{
    if events.len() > 0 {
        event_is_served(events, answers[0]);
        let tail = events.drop_first();
        batch_is_served_in_order(tail, answers.drop_first());
        let (acts, stop) = event_acts(events[0], answers[0]);
        let step = dispatch(events);
        if step is Exit {
            assert(acts =~= Seq::empty());
        } else {
            let (more, end) = loop_run(event_run(step, answers[0]).1, answers.drop_first());
            assert(batch_run(events, answers) == (acts + more, end));
            assert(acts + Seq::empty() =~= acts);
        }
    }
}

/// Every event that a wait reports is served, each once and in the order in which it was
/// reported, up to one with which the loop ends; after the last, the loop waits for more.
pub proof fn reported_events_are_served_in_order(
    events: VecDeque<u64>,
    answers: Seq<Answers>,
)
    requires
        answers.len() == events@.len(),
    ensures
        loop_run(after_wait(WaitOutcome::Ready(events)), answers) == batch_acts(events@, answers),
{
    batch_is_served_in_order(events@, answers);
}

/// What a wait reports is looked at from its first event on: its low 16 bits tell what is
/// done next, and the other events stay pending. The loop waits again only if nothing was
/// reported.
pub proof fn first_reported_event_comes_next(events: VecDeque<u64>)
    ensures
        after_wait(WaitOutcome::Ready(events)) == dispatch(events@),
        events@.len() == 0 ==> after_wait(WaitOutcome::Ready(events)) == (RunModel::Wait {
            max_events: 100,
        }),
        events@.len() > 0 ==> ({
            let step = after_wait(WaitOutcome::Ready(events));
            let token: int = events@[0] as int % 0x1_0000;
            let pending = events@.drop_first();
            &&& token == 0 ==> step == (RunModel::ReadEvent { task: Task::Resize, pending })
            &&& token == 1 ==> step == (RunModel::ReadEvent {
                task: Task::Queue(QueueKind::Inflate),
                pending,
            })
            &&& token == 2 ==> step == (RunModel::ReadEvent {
                task: Task::Queue(QueueKind::Deflate),
                pending,
            })
            &&& token == 3 ==> step == RunModel::Exit(Ok(()))
            &&& token == 4 ==> step == (RunModel::CheckPaused { pending })
            &&& token > 4 ==> step == (RunModel::Unknown { token: token as u16, pending })
        }),
{
}

/// The same holds of events that are pending: the first one tells what is done next.
pub proof fn first_pending_event_comes_next(pending: Seq<u64>)
    ensures
        pending.len() == 0 ==> dispatch(pending) == (RunModel::Wait { max_events: 100 }),
        pending.len() > 0 ==> ({
            let step = dispatch(pending);
            let token: int = pending[0] as int % 0x1_0000;
            let pending = pending.drop_first();
            &&& token == 0 ==> step == (RunModel::ReadEvent { task: Task::Resize, pending })
            &&& token == 1 ==> step == (RunModel::ReadEvent {
                task: Task::Queue(QueueKind::Inflate),
                pending,
            })
            &&& token == 2 ==> step == (RunModel::ReadEvent {
                task: Task::Queue(QueueKind::Deflate),
                pending,
            })
            &&& token == 3 ==> step == RunModel::Exit(Ok(()))
            &&& token == 4 ==> step == (RunModel::CheckPaused { pending })
            &&& token > 4 ==> step == (RunModel::Unknown { token: token as u16, pending })
        }),
{
}

/// A wait that fails ends the loop with the reason, unless a signal was the reason.
pub proof fn failed_wait_ends_the_loop(error: std::io::Error)
    ensures
        after_wait(WaitOutcome::Failed { interrupted: false, error }) == RunModel::Exit(
            Err(DeviceError::EpollWait(error)),
        ),
        after_wait(WaitOutcome::Failed { interrupted: true, error }) == (RunModel::Wait {
            max_events: 100,
        }),
{
}

/// The sources are added to the epoll set one after the other, each for input and with a
/// number of its own; when one cannot be added, or there is no set, the loop ends with the
/// reason.
pub proof fn set_up_goes_on_or_ends(source: EventSource, error: std::io::Error)
    ensures
        after_create(Err(error)) == RunModel::Exit(Err(DeviceError::EpollCreateFd(error))),
        after_create(Ok(())) == (RunModel::Watch {
            source: EventSource::Resize,
            interest: 1,
            token: 0,
        }),
        after_watch(source, Err(error)) == RunModel::Exit(Err(DeviceError::EpollCtl(error))),
        after_watch(source, Ok(())) == match source {
            EventSource::Resize => RunModel::Watch {
                source: EventSource::Inflate,
                interest: 1,
                token: 1,
            },
            EventSource::Inflate => RunModel::Watch {
                source: EventSource::Deflate,
                interest: 1,
                token: 2,
            },
            EventSource::Deflate => RunModel::Watch {
                source: EventSource::Kill,
                interest: 1,
                token: 3,
            },
            EventSource::Kill => RunModel::Watch {
                source: EventSource::Pause,
                interest: 1,
                token: 4,
            },
            EventSource::Pause => RunModel::Wait { max_events: 100 },
        },
{
}

/// The sources follow one another by their tokens, up to the last.
pub proof fn sources_follow_by_their_tokens(source: EventSource)
    ensures
        match source.spec_following() {
            Some(next) => next.spec_token() == source.spec_token() + 1,
            None => source.spec_token() == 4,
        },
{
}

/// An event counter that was read leads to its task, and one that was not to the end of
/// the loop; the value of the counter does not matter, and no pending event is lost.
pub proof fn read_event_leads_to_its_task(
    task: Task,
    pending: Seq<u64>,
    count: u64,
    error: std::io::Error,
)
    ensures
        after_read_event(task, pending, Err(error)) == RunModel::Exit(Ok(())),
        after_read_event(task, pending, Ok(count)) == match task {
            Task::Resize => RunModel::LoadSize { pending },
            Task::Queue(kind) => RunModel::Process { kind, pending },
        },
{
}

/// The size that was requested becomes the number of its whole pages. A request is answered
/// with success if the guest was told, and with the reason if it could not be; only after
/// success does the loop go on, with the events that were pending.
pub proof fn resize_goes_on_or_ends(pending: Seq<u64>, size: u64, reason: std::io::Error)
    ensures
        after_load(pending, size) == (RunModel::UpdateConfig {
            num_pages: (size as int / 4096) % 0x1_0000_0000,
            pending,
        }),
        after_update(pending, Ok(())) == (RunModel::Reply { result: Ok(()), stop: false, pending }),
        after_update(pending, Err(reason)) == (RunModel::Reply {
            result: Err(
                Error::ResizeTriggerFail(DeviceError::FailedSignalingUsedQueue(reason)),
            ),
            stop: true,
            pending,
        }),
        after_reply(true, pending) == RunModel::Exit(Ok(())),
        after_reply(false, pending) == dispatch(pending),
{
}

/// After the work on a queue the loop goes on with the events that were pending, unless
/// the guest could not be interrupted. The same holds after a pause, once the device is no
/// longer paused.
pub proof fn served_event_gives_way_to_the_next(pending: Seq<u64>, error: DeviceError)
    ensures
        after_process(pending, Ok(())) == dispatch(pending),
        after_process(pending, Err(error)) == RunModel::Exit(Ok(())),
        after_check(pending, false) == dispatch(pending),
        after_check(pending, true) == (RunModel::Park { pending }),
{
}

/// Tokens and sources, by their numbers.
pub proof fn tokens_are_numbered(data: u64)
    ensures
        spec_token_of(data) as int == data as int % 0x1_0000,
        EventSource::Resize.spec_token() == 0,
        EventSource::Inflate.spec_token() == 1,
        EventSource::Deflate.spec_token() == 2,
        EventSource::Kill.spec_token() == 3,
        EventSource::Pause.spec_token() == 4,
        spec_token_of(data) > 4 <==> spec_source(spec_token_of(data)) is None,
        spec_source(spec_token_of(data)) matches Some(source) ==> source.spec_token()
            == spec_token_of(data),
{
}

/// What a step shows to the caller is what it stands for.
pub proof fn steps_stand_for_what_they_show(step: RunStep)
    ensures
        match step {
            RunStep::CreateEpoll(_) => step@ == RunModel::CreateEpoll,
            RunStep::Watch { interest, token, rest } => step@ == (RunModel::Watch {
                source: rest@,
                interest,
                token,
            }),
            RunStep::Wait { max_events, rest: _ } => step@ == (RunModel::Wait { max_events }),
            RunStep::ReadEvent(rest) => step@ == (RunModel::ReadEvent {
                task: rest@.0,
                pending: rest@.1,
            }),
            RunStep::LoadSize(rest) => step@ == (RunModel::LoadSize { pending: rest@ }),
            RunStep::UpdateConfig { num_pages, rest } => step@ == (RunModel::UpdateConfig {
                num_pages: num_pages as int,
                pending: rest@,
            }),
            RunStep::Reply { result, rest } => step@ == (RunModel::Reply {
                result,
                stop: rest@.0,
                pending: rest@.1,
            }),
            RunStep::Process { kind, rest } => step@ == (RunModel::Process {
                kind,
                pending: rest@,
            }),
            RunStep::CheckPaused(rest) => step@ == (RunModel::CheckPaused { pending: rest@ }),
            RunStep::Park(rest) => step@ == (RunModel::Park { pending: rest@ }),
            RunStep::Unknown { token, rest } => step@ == (RunModel::Unknown {
                token,
                pending: rest@,
            }),
            RunStep::Exit(result) => step@ == RunModel::Exit(result),
        },
{
}

/// A request whose event could not be raised fails with the reason, without waiting for an
/// answer; one whose event was raised ends with the answer, or with the reason why none
/// can come.
pub proof fn request_ends_with_its_answer(
    reason: std::io::Error,
    answer: Result<(), Error>,
    gone: RecvError,
)
    ensures
        after_notify(Err(reason)) == ResizeStep::Done(Err(Error::EventFdWriteFail(reason))),
        after_notify(Ok(())) == ResizeStep::Receive(Receiving {  }),
        after_receive(Ok(answer)) == ResizeStep::Done(answer),
        after_receive(Err(gone)) == ResizeStep::Done(Err(Error::MpscRecvFail(gone))),
{
}

/// A batch that starts with the device being dropped ends the loop, whatever follows.
pub proof fn kill_ends_the_loop(events: Seq<u64>, answers: Seq<Answers>)
    requires
        events.len() > 0,
        spec_source(spec_token_of(events[0])) == Some(EventSource::Kill),
    ensures
        batch_run(events, answers) == (Seq::<LoopAct>::empty(), RunModel::Exit(Ok(()))),
{
}

/// A wait that a signal interrupted is taken up again, as if nothing had happened.
pub proof fn interrupted_wait_is_taken_up_again(error: std::io::Error)
    ensures
        after_wait(WaitOutcome::Failed { interrupted: true, error }) == spec_wait(),
{
}

/// Before any request, no page is asked for. A request that is made raises its event
/// counter, and so is seen by the loop.
pub proof fn requests_start_from_nothing()
    ensures
        INITIAL_SIZE == 0,
        pages_in(INITIAL_SIZE) == 0,
        EVENT_INCREMENT == 1,
{
}

/// A resize request that reaches the loop is answered once; the guest has been asked for
/// the requested size by then. Who made the request hears of success if and only if the
/// guest was told, and only then does the loop go on.
pub proof fn resize_request_is_answered(pending: Seq<u64>, answers: Answers)
    ensures
        after_notify(Ok(())) == ResizeStep::Receive(Receiving {  }),
        ({
            let (acts, end) = resize_run(pending, answers);
            &&& acts.len() == 2
            &&& acts[0] == LoopAct::Update { num_pages: pages_in(answers.size) }
            &&& acts[1] matches LoopAct::Reply(result) && {
                &&& after_receive(Ok(result)) == ResizeStep::Done(result)
                &&& result is Ok <==> answers.trigger is Ok
            }
            &&& end == if answers.trigger is Ok {
                dispatch(pending)
            } else {
                RunModel::Exit(Ok(()))
            }
        }),
{
}

} // verus!
