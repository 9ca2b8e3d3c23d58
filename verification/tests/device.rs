use std::io;
use std::sync::mpsc;
use virtio_balloon::device::{ActivateStep, Balloon, TYPE_BALLOON, VIRTIO_F_VERSION_1};
use virtio_balloon::error::{ActivateError, Error};
use virtio_balloon::handler::BalloonEpollHandler;
use virtio_balloon::host::Host;
use virtio_balloon::resize::{ResizeStep, VirtioBalloonResize};

struct Names;

impl Host for Names {
    type Size = &'static str;
    type Sender = &'static str;
    type Receiver = &'static str;
    type Event = &'static str;
    type Interrupt = &'static str;
    type Config = &'static str;
    type Paused = &'static str;
    type Queue = &'static str;
    type Memory = &'static str;
    type Thread = &'static str;
}

fn os_error(code: i32) -> io::Error {
    io::Error::from_raw_os_error(code)
}

fn resize() -> VirtioBalloonResize<Names> {
    VirtioBalloonResize::new("size", "tx", "rx", Ok("evt")).unwrap()
}

fn balloon() -> Balloon<Names> {
    Balloon::new(Ok(resize()), "config", "paused").unwrap()
}

/// Activates the device; from the step `fail_at` on, the outside fails.
fn activate(
    dev: &mut Balloon<Names>,
    fail_at: usize,
) -> (Result<(), ActivateError>, Option<(BalloonEpollHandler<Names>, &'static str)>, usize) {
    let mut spawned = None;
    let mut n = 0;
    let mut step = dev.activate("mem", "irq", vec!["q0", "q1"], vec!["e0", "e1"]);
    loop {
        let fail = n >= fail_at;
        n += 1;
        step = match step {
            ActivateStep::MakeKillEvent(rest) => rest.next(
                dev,
                if fail { Err(os_error(24)) } else { Ok(("own kill", "worker kill")) },
            ),
            ActivateStep::MakePauseEvent(rest) => rest.next(
                dev,
                if fail { Err(os_error(24)) } else { Ok(("own pause", "worker pause")) },
            ),
            ActivateStep::CloneQueueEvent(rest) => {
                let copy = match *rest.source() {
                    "e0" => "copy of e0",
                    "e1" => "copy of e1",
                    _ => panic!("unknown event"),
                };
                rest.next(dev, if fail { Err(os_error(24)) } else { Ok(copy) })
            }
            ActivateStep::CloneResizeEvent(rest) => rest.next(
                dev,
                if fail { Err(os_error(24)) } else { Ok("copy of evt") },
            ),
            ActivateStep::Spawn { handler, paused, rest } => {
                spawned = Some((handler, paused));
                rest.next(dev, if fail { Err(os_error(11)) } else { Ok("thread") })
            }
            ActivateStep::Done(result) => return (result, spawned, n - 1),
        };
    }
}

#[test]
fn new_device_offers_version_one_only() {
    let dev = balloon();
    assert_eq!(dev.features(), 1u64 << VIRTIO_F_VERSION_1);
    assert_eq!(dev.features(), 0x1_0000_0000);
    assert_eq!(dev.acked_features, 0);
    assert_eq!(dev.device_type(), TYPE_BALLOON);
    assert_eq!(dev.device_type(), 5);
    assert_eq!(dev.queue_max_sizes(), [128, 128]);
    assert!(dev.kill_evt.is_none());
    assert!(dev.pause_evt.is_none());
    assert!(dev.queue_evts.is_none());
    assert!(dev.interrupt_cb.is_none());
    assert!(dev.epoll_threads.is_none());
    assert_eq!((dev.config, dev.paused), ("config", "paused"));
}

#[test]
fn new_device_needs_its_event() {
    let resize = VirtioBalloonResize::<Names>::new("size", "tx", "rx", Err(os_error(24)));
    match Balloon::new(resize, "config", "paused") {
        Err(e) => assert_eq!(e.raw_os_error(), Some(24)),
        Ok(_) => panic!("created"),
    }
}

#[test]
fn only_offered_features_are_noted() {
    let mut dev = balloon();
    dev.ack_features(u64::MAX);
    assert_eq!(dev.acked_features, 0x1_0000_0000);
    let mut dev = balloon();
    dev.ack_features(0xffff_ffff);
    assert_eq!(dev.acked_features, 0);
}

#[test]
fn features_are_not_taken_back() {
    let mut dev = balloon();
    dev.ack_features(0x1_0000_0000);
    dev.ack_features(0);
    assert_eq!(dev.acked_features, 0x1_0000_0000);
}

#[test]
fn acknowledgements_add_up() {
    let mut dev = balloon();
    dev.avail_features = 0b1110;
    dev.ack_features(0b0011);
    assert_eq!(dev.acked_features, 0b0010);
    dev.ack_features(0b0100);
    assert_eq!(dev.acked_features, 0b0110);
    dev.ack_features(0b0100);
    assert_eq!(dev.acked_features, 0b0110);
}

#[test]
fn activation_needs_every_queue() {
    for (queues, evts) in [(0, 0), (1, 2), (2, 1), (3, 2), (2, 3)] {
        let mut dev = balloon();
        let step = dev.activate("mem", "irq", vec!["q"; queues], vec!["e"; evts]);
        match step {
            ActivateStep::Done(result) => assert_eq!(result, Err(ActivateError::BadActivate)),
            _ => panic!("went on"),
        }
        assert!(dev.kill_evt.is_none() && dev.interrupt_cb.is_none());
    }
}

#[test]
fn activation_hands_everything_over() {
    let mut dev = balloon();
    let (result, spawned, _) = activate(&mut dev, usize::MAX);
    assert_eq!(result, Ok(()));
    let (handler, paused) = spawned.unwrap();
    assert_eq!(paused, "paused");
    assert_eq!(handler.config, "config");
    assert_eq!(handler.queues, vec!["q0", "q1"]);
    assert_eq!(handler.mem, "mem");
    assert_eq!(handler.interrupt_cb, "irq");
    assert_eq!(handler.inflate_queue_evt, "e0");
    assert_eq!(handler.deflate_queue_evt, "e1");
    assert_eq!(handler.kill_evt, "worker kill");
    assert_eq!(handler.pause_evt, "worker pause");
    assert_eq!(handler.resize.size, "size");
    assert_eq!(handler.resize.tx, "tx");
    assert_eq!(handler.resize.rx, None);
    assert_eq!(handler.resize.evt, "copy of evt");
    assert_eq!(dev.kill_evt, Some("own kill"));
    assert_eq!(dev.pause_evt, Some("own pause"));
    assert_eq!(dev.interrupt_cb, Some("irq"));
    assert_eq!(dev.queue_evts, Some(vec!["copy of e0", "copy of e1"]));
    assert_eq!(dev.epoll_threads, Some(vec!["thread"]));
}

#[test]
fn failing_activation_stops_where_it_is() {
    let mut done = Vec::new();
    for fail_at in 0..6 {
        let mut dev = balloon();
        let (result, spawned, steps) = activate(&mut dev, fail_at);
        assert_eq!(result, Err(ActivateError::BadActivate));
        assert_eq!(steps, fail_at + 1);
        assert_eq!(spawned.is_some(), fail_at == 5);
        assert!(dev.epoll_threads.is_none());
        done.push((
            dev.kill_evt.is_some(),
            dev.pause_evt.is_some(),
            dev.interrupt_cb.is_some(),
            dev.queue_evts.is_some(),
        ));
    }
    assert_eq!(
        done,
        vec![
            (false, false, false, false),
            (true, false, false, false),
            (true, true, true, false),
            (true, true, true, false),
            (true, true, true, true),
            (true, true, true, true),
        ]
    );
}

#[test]
fn reset_undoes_activation() {
    let mut dev = balloon();
    let (result, _, _) = activate(&mut dev, usize::MAX);
    assert_eq!(result, Ok(()));
    assert!(dev.begin_reset());
    assert!(dev.pause_evt.is_none());
    let released = dev.reset(true).unwrap();
    assert_eq!(released.kill_evt, Some("own kill"));
    assert_eq!(released.interrupt_cb, "irq");
    assert_eq!(released.queue_evts, vec!["copy of e0", "copy of e1"]);
    assert!(dev.kill_evt.is_none());
    assert!(dev.interrupt_cb.is_none());
    assert!(dev.queue_evts.is_none());
    assert!(!dev.begin_reset());
    let (result, _, _) = activate(&mut dev, usize::MAX);
    assert_eq!(result, Ok(()));
}

#[test]
fn reset_without_resuming_gives_nothing_back() {
    let mut dev = balloon();
    let (result, _, _) = activate(&mut dev, usize::MAX);
    assert_eq!(result, Ok(()));
    assert!(dev.begin_reset());
    assert!(dev.reset(false).is_none());
    assert_eq!(dev.kill_evt, Some("own kill"));
    assert_eq!(dev.interrupt_cb, Some("irq"));
    assert!(dev.queue_evts.is_some());
}

#[test]
fn dropped_device_gives_up_its_kill_event() {
    let mut dev = balloon();
    assert_eq!(dev.take_kill_evt(), None);
    let (result, _, _) = activate(&mut dev, usize::MAX);
    assert_eq!(result, Ok(()));
    assert_eq!(dev.take_kill_evt(), Some("own kill"));
    assert_eq!(dev.take_kill_evt(), None);
}

/// Makes a request; gives what was asked of the outside, and the result.
fn request(
    written: io::Result<()>,
    answer: Result<Result<(), Error>, mpsc::RecvError>,
) -> (Vec<String>, Result<(), Error>) {
    let (mut written, mut answer) = (Some(written), Some(answer));
    let mut seen = Vec::new();
    let mut step = balloon().resize(0x1234_5678);
    loop {
        step = match step {
            ResizeStep::Store { size, rest } => {
                seen.push(format!("store {:#x}", size));
                rest.next()
            }
            ResizeStep::Notify { value, rest } => {
                seen.push(format!("notify {}", value));
                rest.next(written.take().unwrap())
            }
            ResizeStep::Receive(rest) => {
                seen.push("receive".to_string());
                rest.next(answer.take().unwrap())
            }
            ResizeStep::Done(result) => return (seen, result),
        };
    }
}

#[test]
fn resize_request_is_answered() {
    let (seen, result) = request(Ok(()), Ok(Ok(())));
    assert_eq!(seen, vec!["store 0x12345678", "notify 1", "receive"]);
    assert!(result.is_ok());
    let (_, result) = request(Ok(()), Ok(Err(Error::InvalidRequest)));
    assert!(matches!(result, Err(Error::InvalidRequest)));
}

#[test]
fn resize_request_that_cannot_be_notified_fails() {
    let (seen, result) = request(Err(os_error(11)), Ok(Ok(())));
    assert_eq!(seen, vec!["store 0x12345678", "notify 1"]);
    match result {
        Err(Error::EventFdWriteFail(e)) => assert_eq!(e.raw_os_error(), Some(11)),
        other => panic!("{:?}", other),
    }
}

#[test]
fn resize_request_without_an_answer_fails() {
    let (_, result) = request(Ok(()), Err(mpsc::RecvError));
    assert!(matches!(result, Err(Error::MpscRecvFail(_))));
}

#[test]
fn cloned_end_makes_no_requests() {
    let end = resize();
    assert_eq!(end.rx, Some("rx"));
    let other = end.try_clone(Ok("other evt")).unwrap();
    assert_eq!((other.size, other.tx, other.rx, other.evt), ("size", "tx", None, "other evt"));
    match end.try_clone(Err(os_error(24))) {
        Err(Error::EventFdTryCloneFail(e)) => assert_eq!(e.raw_os_error(), Some(24)),
        _ => panic!("cloned"),
    }
}

#[test]
fn request_starts_by_storing_the_size() {
    match resize().work(9) {
        ResizeStep::Store { size, .. } => assert_eq!(size, 9),
        _ => panic!("not stored"),
    }
}
