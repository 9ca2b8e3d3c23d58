//! The work on one of the two queues, from its first descriptor to the interrupt.
//!
//! The guest lists page frame numbers, four bytes each, in the buffers of the queue's
//! descriptors. The work goes from one `QueueStep` to the next: the caller does what
//! the step asks for and calls `next` on what the step carries.

use crate::config::PAGE_SIZE;
use crate::error::DeviceError;
use crate::memory::{covered, region_at, GuestMap, GuestRegion};
use std::collections::VecDeque;
use vm_memory::GuestMemoryError;
use vstd::prelude::*;

verus! {

/// Entries that each queue has room for.
pub const QUEUE_SIZE: u16 = 128;

/// Number of queues.
pub const NUM_QUEUES: usize = 2;

/// Bytes that one page frame number takes in a descriptor's buffer.
pub const PFN_LEN: u64 = 4;

/// Number of address bits below a page frame number.
pub const VIRTIO_BALLOON_PFN_SHIFT: u32 = 12;

/// `libc::MADV_DONTNEED`: drop the pages. The value is that of Linux.
#[verifier::external_body]
fn madv_dontneed() -> (r: i32)
    ensures
        r == 4,
{
    libc::MADV_DONTNEED
}

/// `libc::MADV_WILLNEED`: bring the pages back. The value is that of Linux.
#[verifier::external_body]
fn madv_willneed() -> (r: i32)
    ensures
        r == 3,
{
    libc::MADV_WILLNEED
}

/// One of the two queues.
#[derive(Clone, Copy, Debug, PartialEq, Eq, Structural)]
pub enum QueueKind {
    /// Pages that the guest gives up.
    Inflate,
    /// Pages that the guest takes back.
    Deflate,
}

impl QueueKind {
    /// The queue's position among the device's queues.
    pub open spec fn spec_index(self) -> usize {
        match self {
            QueueKind::Inflate => 0,
            QueueKind::Deflate => 1,
        }
    }

    /// What is advised for the pages that are listed on the queue: to drop them when
    /// the balloon inflates, to bring them back when it deflates.
    pub open spec fn spec_advice(self) -> i32 {
        match self {
            QueueKind::Inflate => 4,
            QueueKind::Deflate => 3,
        }
    }

    /// The queue's position among the device's queues.
    pub fn index(&self) -> (r: usize)
        ensures
            r == self.spec_index(),
            r < NUM_QUEUES,
    {
        match self {
            QueueKind::Inflate => 0,
            QueueKind::Deflate => 1,
        }
    }

    /// What is advised for the pages that are listed on the queue.
    pub fn advice(&self) -> (r: i32)
        ensures
            r == self.spec_advice(),
    {
        match self {
            QueueKind::Inflate => madv_dontneed(),
            QueueKind::Deflate => madv_willneed(),
        }
    }
}

/// The head of a descriptor chain that the guest has made available.
#[derive(Clone, Copy, Debug, PartialEq, Eq, Structural)]
pub struct Descriptor {
    /// Number by which the chain is handed back.
    pub index: u16,
    /// Guest physical address of the buffer.
    pub addr: u64,
    /// Length of the buffer in bytes.
    pub len: u32,
    /// The buffer is for the device to write.
    pub write_only: bool,
}

impl Descriptor {
    /// The device can read the buffer, and it is made of whole page frame numbers.
    pub open spec fn accepted(self) -> bool {
        !self.write_only && self.len as int % PFN_LEN as int == 0
    }

    /// The address of every page frame number in the buffer is a 64-bit number.
    pub open spec fn in_bounds(self) -> bool {
        self.len > 0 ==> self.addr + self.len - PFN_LEN <= u64::MAX
    }

    /// Whether the buffer is readable and made of whole page frame numbers.
    pub fn is_accepted(&self) -> (r: bool)
        ensures
            r == self.accepted(),
    {
        !self.write_only && self.len as u64 % PFN_LEN == 0
    }
}

/// The guest physical address of the frame with the number `pfn`, of which 32 bits are
/// kept.
pub open spec fn frame_address(pfn: u32) -> int {
    (pfn * PAGE_SIZE) % 0x1_0000_0000
}

/// The guest physical address of the frame with the number `pfn`.
pub fn frame_to_address(pfn: u32) -> (r: u32)
    ensures
        r == frame_address(pfn),
{
    assert(pfn << 12u32 == (pfn * 4096) % 0x1_0000_0000) by (bit_vector);
    pfn << VIRTIO_BALLOON_PFN_SHIFT
}

/// Where the work on a queue stands: the heads of the chains that are to be handed
/// back, in the order in which they came.
pub struct Walk {
    pub kind: QueueKind,
    pub used: Seq<u16>,
}

/// A descriptor on which the work has begun: its page frame numbers below `offset` are
/// dealt with.
pub struct Page {
    pub walk: Walk,
    pub desc: Descriptor,
    pub offset: int,
}

/// The chains that are still to be handed back.
pub struct Left {
    pub kind: QueueKind,
    pub heads: Seq<u16>,
}

/// What a `QueueStep` stands for.
#[allow(inconsistent_fields)]
pub enum StepModel {
    Fetch(Walk),
    Walk(Page),
    Advise { addr: int, len: int, advice: i32, rest: Page },
    Unmapped { addr: int, rest: Page },
    Unreadable { addr: int, error: GuestMemoryError, rest: Page },
    Return { index: u16, len: u32, rest: Left },
    Signal(QueueKind),
    Done(Result<(), DeviceError>),
}

/// What the work on a queue needs next.
#[allow(inconsistent_fields)]
pub enum QueueStep {
    /// The next available descriptor, if there is one.
    Fetch(Fetching),
    /// Nothing: go on with the descriptor.
    Walk(Reading),
    /// `madvise` on `len` bytes from `addr` on. Whether it fails does not matter.
    Advise { addr: u64, len: u64, advice: i32, rest: Reading },
    /// Nothing: the page at the guest physical address `addr` does not exist, and is
    /// passed over.
    Unmapped { addr: u32, rest: Reading },
    /// Nothing: the page frame number at `addr` could not be read, and is tried again.
    Unreadable { addr: u64, error: GuestMemoryError, rest: Reading },
    /// The chain `index` handed back to the guest, with `len` bytes written.
    Return { index: u16, len: u32, rest: Returning },
    /// The guest interrupted for the queue.
    Signal(Signalling),
    /// Nothing any more.
    Done(Result<(), DeviceError>),
}

/// Waits for a descriptor.
pub struct Fetching {
    kind: QueueKind,
    used: VecDeque<u16>,
}

/// Is in the middle of a descriptor.
pub struct Reading {
    kind: QueueKind,
    used: VecDeque<u16>,
    desc: Descriptor,
    offset: u64,
}

/// Hands chains back.
pub struct Returning {
    kind: QueueKind,
    heads: VecDeque<u16>,
}

/// Waits for the interrupt to be delivered.
pub struct Signalling {
    kind: QueueKind,
}

impl View for Fetching {
    type V = Walk;

    closed spec fn view(&self) -> Walk {
        Walk { kind: self.kind, used: self.used@ }
    }
}

impl View for Reading {
    type V = Page;

    closed spec fn view(&self) -> Page {
        Page {
            walk: Walk { kind: self.kind, used: self.used@ },
            desc: self.desc,
            offset: self.offset as int,
        }
    }
}

impl View for Returning {
    type V = Left;

    closed spec fn view(&self) -> Left {
        Left { kind: self.kind, heads: self.heads@ }
    }
}

impl View for Signalling {
    type V = QueueKind;

    closed spec fn view(&self) -> QueueKind {
        self.kind
    }
}

impl View for QueueStep {
    type V = StepModel;

    open spec fn view(&self) -> StepModel {
        match *self {
            QueueStep::Fetch(walk) => StepModel::Fetch(walk@),
            QueueStep::Walk(page) => StepModel::Walk(page@),
            QueueStep::Advise { addr, len, advice, rest } => StepModel::Advise {
                addr: addr as int,
                len: len as int,
                advice,
                rest: rest@,
            },
            QueueStep::Unmapped { addr, rest } => StepModel::Unmapped {
                addr: addr as int,
                rest: rest@,
            },
            QueueStep::Unreadable { addr, error, rest } => StepModel::Unreadable {
                addr: addr as int,
                error,
                rest: rest@,
            },
            QueueStep::Return { index, len, rest } => StepModel::Return { index, len, rest: rest@ },
            QueueStep::Signal(rest) => StepModel::Signal(rest@),
            QueueStep::Done(result) => StepModel::Done(result),
        }
    }
}

/// What becomes of the outcome of an interrupt.
pub open spec fn spec_signal(trigger: Result<(), std::io::Error>) -> Result<(), DeviceError> {
    match trigger {
        Ok(()) => Ok(()),
        Err(e) => Err(DeviceError::FailedSignalingUsedQueue(e)),
    }
}

/// What becomes of the outcome of an interrupt.
pub fn signal(trigger: Result<(), std::io::Error>) -> (r: Result<(), DeviceError>)
    ensures
        r == spec_signal(trigger),
{
    match trigger {
        Ok(()) => Ok(()),
        Err(e) => Err(DeviceError::FailedSignalingUsedQueue(e)),
    }
}

impl Walk {
    /// No chain has been taken yet.
    pub open spec fn start(kind: QueueKind) -> Walk {
        Walk { kind, used: Seq::empty() }
    }

    /// `desc` can be worked on: there is room to note it, and it stays in bounds.
    pub open spec fn admits(self, desc: Descriptor) -> bool {
        desc.accepted() ==> self.used.len() < QUEUE_SIZE && desc.in_bounds()
    }

    /// The step after the next descriptor has come, or after the last one.
    pub open spec fn after(self, desc: Option<Descriptor>) -> StepModel {
        match desc {
            Some(d) => if d.accepted() {
                StepModel::Walk(Page { walk: self, desc: d, offset: 0 })
            } else {
                StepModel::Fetch(self)
            },
            None => if self.used.len() == 0 {
                StepModel::Done(Ok(()))
            } else {
                Left { kind: self.kind, heads: self.used }.step()
            },
        }
    }
}

impl Left {
    /// Hands back the first chain that is left; interrupts the guest after the last.
    pub open spec fn step(self) -> StepModel {
        if self.heads.len() == 0 {
            StepModel::Signal(self.kind)
        } else {
            StepModel::Return {
                index: self.heads[0],
                len: 0,
                rest: Left { kind: self.kind, heads: self.heads.drop_first() },
            }
        }
    }
}

impl Page {
    /// Every page frame number of the descriptor is dealt with.
    pub open spec fn done(self) -> bool {
        self.offset >= self.desc.len
    }

    /// Where the next page frame number lies.
    pub open spec fn cursor(self) -> int {
        self.desc.addr + self.offset
    }

    /// Back to fetching, with the chain noted.
    pub open spec fn finish(self) -> StepModel {
        StepModel::Fetch(
            Walk { kind: self.walk.kind, used: self.walk.used.push(self.desc.index) },
        )
    }

    /// One page frame number further.
    pub open spec fn advanced(self) -> Page {
        Page { offset: self.offset + PFN_LEN, ..self }
    }

    /// The step for the frame `pfn`, whose page lies in `found`.
    pub open spec fn frame_step(self, pfn: u32, found: Option<GuestRegion>) -> StepModel {
        match found {
            Some(region) => StepModel::Advise {
                addr: region.host + frame_address(pfn) - region.start,
                len: PAGE_SIZE as int,
                advice: self.walk.kind.spec_advice(),
                rest: self.advanced(),
            },
            None => StepModel::Unmapped { addr: frame_address(pfn), rest: self.advanced() },
        }
    }

    /// The step after the next page frame number has been read as `read`.
    pub open spec fn after_read(
        self,
        read: Result<u32, GuestMemoryError>,
        regions: Seq<GuestRegion>,
    ) -> StepModel {
        match read {
            Ok(pfn) => self.frame_step(pfn, region_at(regions, frame_address(pfn))),
            Err(error) => StepModel::Unreadable { addr: self.cursor(), error, rest: self },
        }
    }
}

impl QueueStep {
    /// Begins the work on a queue.
    pub fn start(kind: QueueKind) -> (r: Self)
        ensures
            r@ == StepModel::Fetch(Walk::start(kind)),
    {
        QueueStep::Fetch(Fetching { kind, used: VecDeque::new() })
    }
}

impl Fetching {
    /// Whether `desc` can be worked on.
    pub fn admits(&self, desc: &Descriptor) -> (r: bool)
        ensures
            r == self@.admits(*desc),
    {
        if desc.is_accepted() {
            self.used.len() < QUEUE_SIZE as usize && (desc.len == 0 || desc.addr <= u64::MAX - (
            desc.len as u64 - PFN_LEN))
        } else {
            true
        }
    }

    /// Takes the next available descriptor, or hears that there is none.
    pub fn next(self, desc: Option<Descriptor>) -> (r: QueueStep)
        requires
            desc matches Some(d) ==> self@.admits(d),
        ensures
            r@ == self@.after(desc),
    {
        match desc {
            Some(d) => {
                if d.is_accepted() {
                    QueueStep::Walk(
                        Reading { kind: self.kind, used: self.used, desc: d, offset: 0 },
                    )
                } else {
                    QueueStep::Fetch(self)
                }
            },
            None => {
                if self.used.len() == 0 {
                    QueueStep::Done(Ok(()))
                } else {
                    Returning { kind: self.kind, heads: self.used }.next()
                }
            },
        }
    }
}

impl Reading {
    #[verifier::type_invariant]
    spec fn inv(self) -> bool {
        &&& self.used@.len() < QUEUE_SIZE
        &&& self.desc.accepted()
        &&& self.desc.in_bounds()
        &&& self.offset <= self.desc.len
        &&& self.offset as int % PFN_LEN as int == 0
    }

    /// Whether every page frame number of the descriptor is dealt with.
    pub fn is_done(&self) -> (r: bool)
        ensures
            r == self@.done(),
    {
        self.offset >= self.desc.len as u64
    }

    /// Goes on once the next page frame number has been read as `read`.
    pub fn after_read(
        self,
        read: Result<u32, GuestMemoryError>,
        map: &GuestMap<'_>,
    ) -> (r: QueueStep)
        requires
            !self@.done(),
        ensures
            r@ == self@.after_read(read, map@),
    {
        proof {
            use_type_invariant(&self);
        }
        let Reading { kind, used, desc, offset } = self;
        match read {
            Ok(pfn) => {
                let rest = Reading { kind, used, desc, offset: offset + PFN_LEN };
                let addr: u32 = frame_to_address(pfn);
                match map.find_region(addr as u64) {
                    Some(region) => QueueStep::Advise {
                        addr: region.host + (addr as u64 - region.start),
                        len: PAGE_SIZE,
                        advice: kind.advice(),
                        rest,
                    },
                    None => QueueStep::Unmapped { addr, rest },
                }
            },
            Err(error) => QueueStep::Unreadable {
                addr: desc.addr + offset,
                error,
                rest: Reading { kind, used, desc, offset },
            },
        }
    }

    /// Reads the next page frame number and goes on with whatever it is read as, or
    /// finishes the descriptor.
    pub fn next(self, map: &GuestMap<'_>) -> (r: QueueStep)
        ensures
            self@.done() ==> r@ == self@.finish(),
            !self@.done() ==> exists|read: Result<u32, GuestMemoryError>|
                (read is Ok <==> covered(map@, self@.cursor(), PFN_LEN as int)) && map.holds(
                    (self@.desc.addr + self@.offset) as u64,
                    read,
                ) && r@ == #[trigger] self@.after_read(read, map@),
    {
        proof {
            use_type_invariant(&self);
        }
        if self.is_done() {
            let Reading { kind, mut used, desc, offset: _ } = self;
            used.push_back(desc.index);
            QueueStep::Fetch(Fetching { kind, used })
        } else {
            let read = map.read_u32(self.desc.addr + self.offset);
            self.after_read(read, map)
        }
    }
}

impl Returning {
    /// Goes on once the chain has been handed back.
    pub fn next(self) -> (r: QueueStep)
        ensures
            r@ == self@.step(),
    {
        let Returning { kind, mut heads } = self;
        match heads.pop_front() {
            Some(index) => QueueStep::Return { index, len: 0, rest: Returning { kind, heads } },
            None => QueueStep::Signal(Signalling { kind }),
        }
    }
}

impl Signalling {
    /// The queue for which the guest is interrupted.
    pub fn queue(&self) -> (r: QueueKind)
        ensures
            r == self@,
    {
        self.kind
    }

    /// Ends the work once the interrupt has been delivered, or could not be.
    pub fn next(self, trigger: Result<(), std::io::Error>) -> (r: QueueStep)
        ensures
            r@ == StepModel::Done(spec_signal(trigger)),
    {
        QueueStep::Done(signal(trigger))
    }
}

} // verus!
