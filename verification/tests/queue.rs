use std::io;
use virtio_balloon::error::DeviceError;
use virtio_balloon::memory::{GuestMap, GuestRegion};
use virtio_balloon::queue::{
    frame_to_address, signal, Descriptor, QueueKind, QueueStep, Reading, QUEUE_SIZE,
};
use vm_memory::{Bytes, GuestAddress, GuestMemory, GuestMemoryError, GuestMemoryMmap};

const LOW: u64 = 0x1_0000;
const HIGH: u64 = 0x10_0000;

fn memory() -> GuestMemoryMmap {
    GuestMemoryMmap::from_ranges(&[
        (GuestAddress(0), LOW as usize),
        (GuestAddress(HIGH), 0x4000),
    ])
    .unwrap()
}

fn host(mem: &GuestMemoryMmap, addr: u64) -> u64 {
    mem.get_host_address(GuestAddress(addr)).unwrap() as u64
}

fn write_frames(mem: &GuestMemoryMmap, addr: u64, frames: &[u32]) {
    for (i, frame) in frames.iter().enumerate() {
        mem.write_obj(*frame, GuestAddress(addr + 4 * i as u64)).unwrap();
    }
}

fn buffer(index: u16, addr: u64, len: u32) -> Descriptor {
    Descriptor { index, addr, len, write_only: false }
}

#[derive(Debug, PartialEq, Eq)]
enum Seen {
    Advise(u64, u64, i32),
    Unmapped(u32),
    Return(u16, u32),
    Signal(QueueKind),
}

/// Works a queue through; gives what the steps asked for and how they ended.
fn work(
    kind: QueueKind,
    mem: &GuestMemoryMmap,
    descs: &[Descriptor],
    trigger: io::Result<()>,
) -> (Vec<Seen>, Result<(), DeviceError>) {
    let map = GuestMap::new(mem).unwrap();
    let mut trigger = Some(trigger);
    let mut left = descs.iter();
    let mut seen = Vec::new();
    let mut step = QueueStep::start(kind);
    loop {
        step = match step {
            QueueStep::Fetch(rest) => {
                let desc = left.next().copied();
                if let Some(desc) = &desc {
                    assert!(rest.admits(desc));
                }
                rest.next(desc)
            }
            QueueStep::Walk(rest) => rest.next(&map),
            QueueStep::Advise { addr, len, advice, rest } => {
                seen.push(Seen::Advise(addr, len, advice));
                rest.next(&map)
            }
            QueueStep::Unmapped { addr, rest } => {
                seen.push(Seen::Unmapped(addr));
                rest.next(&map)
            }
            QueueStep::Unreadable { .. } => panic!("unreadable"),
            QueueStep::Return { index, len, rest } => {
                seen.push(Seen::Return(index, len));
                rest.next()
            }
            QueueStep::Signal(rest) => {
                seen.push(Seen::Signal(rest.queue()));
                rest.next(trigger.take().unwrap())
            }
            QueueStep::Done(result) => return (seen, result),
        };
    }
}

fn begin(desc: Descriptor) -> Reading {
    match QueueStep::start(QueueKind::Inflate) {
        QueueStep::Fetch(rest) => {
            assert!(rest.admits(&desc));
            match rest.next(Some(desc)) {
                QueueStep::Walk(rest) => rest,
                _ => panic!("not accepted"),
            }
        }
        _ => panic!("not fetching"),
    }
}

#[test]
fn empty_queue_does_nothing() {
    let mem = memory();
    let (seen, result) = work(QueueKind::Inflate, &mem, &[], Ok(()));
    assert!(seen.is_empty());
    assert!(result.is_ok());
}

#[test]
fn inflate_drops_the_listed_pages() {
    let mem = memory();
    write_frames(&mem, 0x2000, &[5, 0x101]);
    let (seen, result) = work(QueueKind::Inflate, &mem, &[buffer(7, 0x2000, 8)], Ok(()));
    assert!(result.is_ok());
    assert_eq!(
        seen,
        vec![
            Seen::Advise(host(&mem, 0x5000), 4096, libc::MADV_DONTNEED),
            Seen::Advise(host(&mem, 0x10_1000), 4096, libc::MADV_DONTNEED),
            Seen::Return(7, 0),
            Seen::Signal(QueueKind::Inflate),
        ]
    );
}

#[test]
fn deflate_mirrors_inflate() {
    let mem = memory();
    write_frames(&mem, 0x2000, &[5, 0x101]);
    let (seen, result) = work(QueueKind::Deflate, &mem, &[buffer(7, 0x2000, 8)], Ok(()));
    assert!(result.is_ok());
    assert_eq!(
        seen,
        vec![
            Seen::Advise(host(&mem, 0x5000), 4096, libc::MADV_WILLNEED),
            Seen::Advise(host(&mem, 0x10_1000), 4096, libc::MADV_WILLNEED),
            Seen::Return(7, 0),
            Seen::Signal(QueueKind::Deflate),
        ]
    );
}

#[test]
fn chains_come_back_in_order() {
    let mem = memory();
    write_frames(&mem, 0x2000, &[1, 2, 3]);
    let descs = [buffer(9, 0x2004, 8), buffer(2, 0x2000, 4), buffer(5, 0x2000, 0)];
    let (seen, result) = work(QueueKind::Inflate, &mem, &descs, Ok(()));
    assert!(result.is_ok());
    assert_eq!(
        seen,
        vec![
            Seen::Advise(host(&mem, 0x2000), 4096, libc::MADV_DONTNEED),
            Seen::Advise(host(&mem, 0x3000), 4096, libc::MADV_DONTNEED),
            Seen::Advise(host(&mem, 0x1000), 4096, libc::MADV_DONTNEED),
            Seen::Return(9, 0),
            Seen::Return(2, 0),
            Seen::Return(5, 0),
            Seen::Signal(QueueKind::Inflate),
        ]
    );
}

#[test]
fn refused_descriptors_are_passed_over() {
    let mem = memory();
    write_frames(&mem, 0x2000, &[1, 2]);
    let descs = [
        Descriptor { index: 1, addr: 0x2000, len: 4, write_only: true },
        buffer(2, 0x2000, 6),
        buffer(3, 0x2004, 4),
    ];
    let (seen, result) = work(QueueKind::Inflate, &mem, &descs, Ok(()));
    assert!(result.is_ok());
    assert_eq!(
        seen,
        vec![
            Seen::Advise(host(&mem, 0x2000), 4096, libc::MADV_DONTNEED),
            Seen::Return(3, 0),
            Seen::Signal(QueueKind::Inflate),
        ]
    );
}

#[test]
fn only_refused_descriptors_raise_no_interrupt() {
    let mem = memory();
    let descs = [buffer(2, 0x2000, 5)];
    let (seen, result) = work(QueueKind::Deflate, &mem, &descs, Err(io::Error::from_raw_os_error(5)));
    assert!(seen.is_empty());
    assert!(result.is_ok());
}

#[test]
fn missing_page_is_passed_over() {
    let mem = memory();
    write_frames(&mem, 0x2000, &[0x50, 4]);
    let (seen, result) = work(QueueKind::Inflate, &mem, &[buffer(7, 0x2000, 8)], Ok(()));
    assert!(result.is_ok());
    assert_eq!(
        seen,
        vec![
            Seen::Unmapped(0x5_0000),
            Seen::Advise(host(&mem, 0x4000), 4096, libc::MADV_DONTNEED),
            Seen::Return(7, 0),
            Seen::Signal(QueueKind::Inflate),
        ]
    );
}

#[test]
fn frame_numbers_keep_their_low_bits() {
    assert_eq!(frame_to_address(0), 0);
    assert_eq!(frame_to_address(1), 0x1000);
    assert_eq!(frame_to_address(0xf_ffff), 0xffff_f000);
    assert_eq!(frame_to_address(0x10_0000), 0);
    assert_eq!(frame_to_address(0xffff_ffff), 0xffff_f000);
    assert_eq!(frame_to_address(0x30_0005), frame_to_address(5));
}

#[test]
fn failed_interrupt_is_reported() {
    let mem = memory();
    let (seen, result) =
        work(QueueKind::Inflate, &mem, &[buffer(1, 0, 0)], Err(io::Error::from_raw_os_error(5)));
    assert_eq!(seen, vec![Seen::Return(1, 0), Seen::Signal(QueueKind::Inflate)]);
    match result {
        Err(DeviceError::FailedSignalingUsedQueue(e)) => assert_eq!(e.raw_os_error(), Some(5)),
        other => panic!("{:?}", other),
    }
}

#[test]
fn unreadable_frame_is_tried_again() {
    let mem = memory();
    let map = GuestMap::new(&mem).unwrap();
    let mut rest = begin(buffer(7, 0x8_0000, 4));
    for _ in 0..3 {
        rest = match rest.next(&map) {
            QueueStep::Unreadable { addr, error, rest } => {
                assert_eq!(addr, 0x8_0000);
                assert!(matches!(error, GuestMemoryError::InvalidGuestAddress(_)));
                rest
            }
            _ => panic!("readable"),
        };
        assert!(!rest.is_done());
    }
}

#[test]
fn frame_across_the_end_of_memory_is_unreadable() {
    let mem = memory();
    let map = GuestMap::new(&mem).unwrap();
    match begin(buffer(7, LOW - 2, 4)).next(&map) {
        QueueStep::Unreadable { addr, .. } => assert_eq!(addr, LOW - 2),
        _ => panic!("readable"),
    }
}

#[test]
fn read_runs_from_one_region_into_the_next() {
    let mem = GuestMemoryMmap::from_ranges(&[
        (GuestAddress(0), 0x1000),
        (GuestAddress(0x1000), 0x1000),
    ])
    .unwrap();
    mem.write_obj(1u32, GuestAddress(0xffe)).unwrap();
    let map = GuestMap::new(&mem).unwrap();
    assert_eq!(map.read_u32(0xffe).unwrap(), 1);
    assert!(map.read_u32(0x1ffd).is_err());
}

#[test]
fn regions_are_found_by_address() {
    let mem = memory();
    let map = GuestMap::new(&mem).unwrap();
    let low = GuestRegion { start: 0, len: LOW, host: host(&mem, 0) };
    let high = GuestRegion { start: HIGH, len: 0x4000, host: host(&mem, HIGH) };
    assert_eq!(map.find_region(0), Some(low));
    assert_eq!(map.find_region(LOW - 1), Some(low));
    assert_eq!(map.find_region(LOW), None);
    assert_eq!(map.find_region(HIGH + 5), Some(high));
    assert_eq!(map.find_region(HIGH + 0x4000), None);
}

#[test]
fn empty_memory_has_no_region() {
    let mem = GuestMemoryMmap::new();
    let map = GuestMap::new(&mem).unwrap();
    assert_eq!(map.find_region(0), None);
    assert!(map.read_u32(0).is_err());
}

#[test]
fn given_reading_decides_the_step() {
    let mem = memory();
    let map = GuestMap::new(&mem).unwrap();
    match begin(buffer(7, 0x100, 4)).after_read(Ok(0x102), &map) {
        QueueStep::Advise { addr, len, advice, rest } => {
            assert_eq!(addr, host(&mem, 0x10_2000));
            assert_eq!(len, 4096);
            assert_eq!(advice, libc::MADV_DONTNEED);
            assert!(rest.is_done());
        }
        _ => panic!("no advice"),
    }
    match begin(buffer(7, 0x100, 4)).after_read(Err(GuestMemoryError::InvalidBackendAddress), &map) {
        QueueStep::Unreadable { addr, error, rest } => {
            assert_eq!(addr, 0x100);
            assert!(matches!(error, GuestMemoryError::InvalidBackendAddress));
            assert!(!rest.is_done());
        }
        _ => panic!("readable"),
    }
}

#[test]
fn advice_stays_in_the_mapping() {
    let mem = memory();
    write_frames(&mem, 0x2000, &[0x103]);
    let (seen, _) = work(QueueKind::Inflate, &mem, &[buffer(7, 0x2000, 4)], Ok(()));
    assert_eq!(seen[0], Seen::Advise(host(&mem, HIGH) + 0x3000, 4096, libc::MADV_DONTNEED));
}

#[test]
fn full_queue_admits_no_more() {
    let mem = memory();
    let map = GuestMap::new(&mem).unwrap();
    let mut step = QueueStep::start(QueueKind::Inflate);
    let mut taken: u16 = 0;
    loop {
        step = match step {
            QueueStep::Fetch(rest) => {
                let desc = buffer(taken, 0, 0);
                if !rest.admits(&desc) {
                    assert!(rest.admits(&buffer(0, 0, 3)));
                    break;
                }
                taken += 1;
                rest.next(Some(desc))
            }
            QueueStep::Walk(rest) => rest.next(&map),
            _ => panic!("unexpected step"),
        };
    }
    assert_eq!(taken, QUEUE_SIZE);
}

#[test]
fn buffers_must_stay_in_bounds() {
    match QueueStep::start(QueueKind::Inflate) {
        QueueStep::Fetch(rest) => {
            assert!(rest.admits(&buffer(0, u64::MAX - 4, 8)));
            assert!(!rest.admits(&buffer(0, u64::MAX - 3, 8)));
            assert!(rest.admits(&buffer(0, u64::MAX, 4)));
            assert!(rest.admits(&buffer(0, u64::MAX, 0)));
            assert!(rest.admits(&buffer(0, u64::MAX, 9)));
        }
        _ => panic!("not fetching"),
    }
}

#[test]
fn queues_have_their_places() {
    assert_eq!(QueueKind::Inflate.index(), 0);
    assert_eq!(QueueKind::Deflate.index(), 1);
    assert_eq!(QueueKind::Inflate.advice(), libc::MADV_DONTNEED);
    assert_eq!(QueueKind::Deflate.advice(), libc::MADV_WILLNEED);
}

#[test]
fn interrupt_outcome_is_kept() {
    assert!(signal(Ok(())).is_ok());
    match signal(Err(io::Error::from_raw_os_error(9))) {
        Err(DeviceError::FailedSignalingUsedQueue(e)) => assert_eq!(e.raw_os_error(), Some(9)),
        other => panic!("{:?}", other),
    }
}
