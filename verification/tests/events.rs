use std::io;
use virtio_balloon::error::{DeviceError, Error};
use virtio_balloon::handler::{
    source, token_of, BalloonEpollHandler, EventSource, RunStep, Task, WaitOutcome, Waiting,
};
use virtio_balloon::host::Host;
use virtio_balloon::queue::{QueueKind, QueueStep};
use virtio_balloon::resize::VirtioBalloonResize;

struct Numbers;

impl Host for Numbers {
    type Size = u8;
    type Sender = u8;
    type Receiver = u8;
    type Event = u8;
    type Interrupt = u8;
    type Config = u8;
    type Paused = u8;
    type Queue = u8;
    type Memory = u8;
    type Thread = u8;
}

fn handler() -> BalloonEpollHandler<Numbers> {
    BalloonEpollHandler {
        config: 0,
        resize: VirtioBalloonResize { size: 0, tx: 0, rx: None, evt: 0 },
        queues: vec![0, 0],
        mem: 0,
        interrupt_cb: 0,
        inflate_queue_evt: 0,
        deflate_queue_evt: 0,
        kill_evt: 0,
        pause_evt: 0,
    }
}

fn os_error(code: i32) -> io::Error {
    io::Error::from_raw_os_error(code)
}

fn code(e: &io::Error) -> Option<i32> {
    e.raw_os_error()
}

/// Sets the loop up; gives what was watched and the first wait.
fn set_up() -> (Vec<(EventSource, u32, u64)>, Waiting) {
    let mut watched = Vec::new();
    let mut step = handler().run();
    loop {
        step = match step {
            RunStep::CreateEpoll(rest) => rest.next(Ok(())),
            RunStep::Watch { interest, token, rest } => {
                watched.push((rest.source(), interest, token));
                rest.next(Ok(()))
            }
            RunStep::Wait { max_events, rest } => {
                assert_eq!(max_events, 100);
                return (watched, rest);
            }
            _ => panic!("unexpected step"),
        };
    }
}

fn ready(events: &[u64]) -> RunStep {
    set_up().1.next(WaitOutcome::Ready(events.iter().copied().collect()))
}

struct Answers {
    read: Option<i32>,
    size: u64,
    trigger: Option<i32>,
    process: Option<i32>,
    wakeups: u32,
}

const FINE: Answers = Answers { read: None, size: 0x5000, trigger: None, process: None, wakeups: 0 };

fn outcome(failure: Option<i32>) -> io::Result<()> {
    match failure {
        None => Ok(()),
        Some(code) => Err(os_error(code)),
    }
}

/// Serves a batch of events; gives what the steps asked for, and whether the loop ended.
fn serve(events: &[u64], answers: &Answers) -> (Vec<String>, bool) {
    let mut wakeups = answers.wakeups;
    let mut seen = Vec::new();
    let mut step = ready(events);
    loop {
        step = match step {
            RunStep::ReadEvent(rest) => {
                seen.push(format!("read {:?}", rest.task()));
                rest.next(outcome(answers.read).map(|_| 1))
            }
            RunStep::LoadSize(rest) => rest.next(answers.size),
            RunStep::UpdateConfig { num_pages, rest } => {
                seen.push(format!("update {}", num_pages));
                rest.next(outcome(answers.trigger))
            }
            RunStep::Reply { result, rest } => {
                seen.push(format!("reply {}", result.is_ok()));
                rest.next()
            }
            RunStep::Process { kind, rest } => {
                seen.push(format!("process {:?}", kind));
                rest.next(outcome(answers.process).map_err(DeviceError::FailedSignalingUsedQueue))
            }
            RunStep::CheckPaused(rest) => {
                let paused = wakeups > 0;
                wakeups = wakeups.saturating_sub(1);
                rest.next(paused)
            }
            RunStep::Park(rest) => {
                seen.push("park".to_string());
                rest.next()
            }
            RunStep::Unknown { token, rest } => {
                seen.push(format!("unknown {}", token));
                rest.next()
            }
            RunStep::Wait { .. } => return (seen, false),
            RunStep::Exit(result) => {
                assert!(result.is_ok());
                return (seen, true);
            }
            _ => panic!("unexpected step"),
        };
    }
}

#[test]
fn all_sources_are_watched() {
    let epollin = epoll::Events::EPOLLIN.bits();
    assert_eq!(
        set_up().0,
        vec![
            (EventSource::Resize, epollin, 0),
            (EventSource::Inflate, epollin, 1),
            (EventSource::Deflate, epollin, 2),
            (EventSource::Kill, epollin, 3),
            (EventSource::Pause, epollin, 4),
        ]
    );
}

#[test]
fn tokens_tell_sources() {
    let all = [
        EventSource::Resize,
        EventSource::Inflate,
        EventSource::Deflate,
        EventSource::Kill,
        EventSource::Pause,
    ];
    for (i, s) in all.iter().enumerate() {
        assert_eq!(s.token(), i as u16);
        assert_eq!(source(token_of(s.token() as u64)), Some(*s));
        assert_eq!(s.following(), all.get(i + 1).copied());
    }
    assert_eq!(source(5), None);
    assert_eq!(source(u16::MAX), None);
}

#[test]
fn tokens_are_the_low_bits() {
    assert_eq!(token_of(0xffff_ffff_0001_0002), 2);
    assert_eq!(token_of(0xffff), 0xffff);
    assert_eq!(token_of(0x1_0000), 0);
}

#[test]
fn failing_to_create_epoll_ends_the_loop() {
    match handler().run() {
        RunStep::CreateEpoll(rest) => match rest.next(Err(os_error(24))) {
            RunStep::Exit(Err(DeviceError::EpollCreateFd(e))) => assert_eq!(code(&e), Some(24)),
            _ => panic!("went on"),
        },
        _ => panic!("unexpected step"),
    }
}

#[test]
fn failing_to_watch_ends_the_loop() {
    for fail_at in 0..5 {
        let mut step = handler().run();
        let mut n = 0;
        let result = loop {
            step = match step {
                RunStep::CreateEpoll(rest) => rest.next(Ok(())),
                RunStep::Watch { rest, .. } => {
                    n += 1;
                    rest.next(if n > fail_at { Err(os_error(9)) } else { Ok(()) })
                }
                RunStep::Exit(result) => break result,
                _ => panic!("went on"),
            };
        };
        assert_eq!(n, fail_at + 1);
        match result {
            Err(DeviceError::EpollCtl(e)) => assert_eq!(code(&e), Some(9)),
            other => panic!("{:?}", other),
        }
    }
}

#[test]
fn failing_wait_ends_the_loop() {
    let outcome = WaitOutcome::Failed { interrupted: false, error: os_error(22) };
    match set_up().1.next(outcome) {
        RunStep::Exit(Err(DeviceError::EpollWait(e))) => assert_eq!(code(&e), Some(22)),
        _ => panic!("went on"),
    }
}

#[test]
fn interrupted_wait_is_taken_up_again() {
    let outcome = WaitOutcome::Failed { interrupted: true, error: os_error(4) };
    match set_up().1.next(outcome) {
        RunStep::Wait { max_events, .. } => assert_eq!(max_events, 100),
        _ => panic!("did not wait"),
    }
}

#[test]
fn no_event_means_waiting() {
    assert_eq!(serve(&[], &FINE), (vec![], false));
}

#[test]
fn batch_is_served_in_order() {
    let (seen, ended) = serve(&[2, 0, 1, 77, 1], &FINE);
    assert!(!ended);
    assert_eq!(
        seen,
        vec![
            "read Queue(Deflate)",
            "process Deflate",
            "read Resize",
            "update 5",
            "reply true",
            "read Queue(Inflate)",
            "process Inflate",
            "unknown 77",
            "read Queue(Inflate)",
            "process Inflate",
        ]
    );
}

#[test]
fn kill_ends_the_loop() {
    assert_eq!(serve(&[3, 0, 1, 2], &FINE), (vec![], true));
    let (seen, ended) = serve(&[1, 3, 0], &FINE);
    assert!(ended);
    assert_eq!(seen, vec!["read Queue(Inflate)", "process Inflate"]);
}

#[test]
fn paused_thread_sleeps() {
    let (seen, ended) = serve(&[4, 1], &Answers { wakeups: 3, ..FINE });
    assert!(!ended);
    assert_eq!(seen, vec!["park", "park", "park", "read Queue(Inflate)", "process Inflate"]);
    assert_eq!(serve(&[4], &FINE), (vec![], false));
}

#[test]
fn unreadable_event_ends_the_loop() {
    let failing = Answers { read: Some(11), ..FINE };
    assert_eq!(serve(&[0, 1], &failing), (vec!["read Resize".to_string()], true));
    assert_eq!(serve(&[1, 0], &failing), (vec!["read Queue(Inflate)".to_string()], true));
    assert_eq!(serve(&[2, 0], &failing), (vec!["read Queue(Deflate)".to_string()], true));
}

#[test]
fn failing_queue_ends_the_loop() {
    let failing = Answers { process: Some(5), ..FINE };
    let (seen, ended) = serve(&[2, 1], &failing);
    assert!(ended);
    assert_eq!(seen, vec!["read Queue(Deflate)", "process Deflate"]);
}

#[test]
fn failing_config_interrupt_is_answered_and_ends_the_loop() {
    let failing = Answers { trigger: Some(5), ..FINE };
    let (seen, ended) = serve(&[0, 1], &failing);
    assert!(ended);
    assert_eq!(seen, vec!["read Resize", "update 5", "reply false"]);
}

#[test]
fn failing_config_interrupt_is_named_in_the_answer() {
    match ready(&[0]) {
        RunStep::ReadEvent(rest) => {
            assert_eq!(rest.task(), Task::Resize);
            match rest.next(Ok(1)) {
                RunStep::LoadSize(rest) => match rest.next(0x1_0000) {
                    RunStep::UpdateConfig { num_pages, rest } => {
                        assert_eq!(num_pages, 16);
                        match rest.next(Err(os_error(5))) {
                            RunStep::Reply {
                                result:
                                    Err(Error::ResizeTriggerFail(
                                        DeviceError::FailedSignalingUsedQueue(e),
                                    )),
                                ..
                            } => assert_eq!(code(&e), Some(5)),
                            _ => panic!("no failure"),
                        }
                    }
                    _ => panic!("no update"),
                },
                _ => panic!("no size"),
            }
        }
        _ => panic!("not read"),
    }
}

#[test]
fn handler_begins_with_the_first_descriptor() {
    assert!(matches!(handler().process_queue(QueueKind::Deflate), QueueStep::Fetch(_)));
}
