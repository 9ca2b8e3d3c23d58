//! What holds of the work on a queue, from its first descriptor to its last step.

use crate::config::PAGE_SIZE;
use crate::error::DeviceError;
use crate::memory::{region_at, GuestMap, GuestRegion};
use crate::queue::{
    frame_address, spec_signal, Descriptor, Left, Page, QueueKind, QueueStep, StepModel, Walk,
    PFN_LEN, QUEUE_SIZE,
};
use vm_memory::GuestMemoryError;
use vstd::prelude::*;

verus! {

/// What the work on a queue does to the outside.
#[allow(inconsistent_fields)]
pub enum Act {
    /// `madvise` is called.
    Advise { addr: int, len: int, advice: i32 },
    /// A page that does not exist is passed over.
    Skip { addr: int },
    /// A chain is handed back.
    Return { index: u16, len: u32 },
    /// The guest is interrupted.
    Signal(QueueKind),
}

/// What is done for the frame `pfn` on a queue of the given kind.
pub open spec fn frame_act(kind: QueueKind, regions: Seq<GuestRegion>, pfn: u32) -> Act {
    let addr = frame_address(pfn);
    match region_at(regions, addr) {
        Some(region) => Act::Advise {
            addr: region.host + addr - region.start,
            len: PAGE_SIZE as int,
            advice: kind.spec_advice(),
        },
        None => Act::Skip { addr },
    }
}

/// A descriptor and the page frame numbers that its buffer is read as.
pub struct Listed {
    pub desc: Descriptor,
    pub frames: Seq<u32>,
}

/// An accepted descriptor's buffer is read as one page frame number for every four bytes.
pub open spec fn complete(listed: Seq<Listed>) -> bool {
    forall|i: int|
        0 <= i < listed.len() && (#[trigger] listed[i]).desc.accepted() ==> PFN_LEN
            * listed[i].frames.len() == listed[i].desc.len
}

/// The accepted chains, in the order in which they came.
pub open spec fn accepted_heads(listed: Seq<Listed>) -> Seq<u16>
    decreases listed.len(),
{
    if listed.len() == 0 {
        Seq::empty()
    } else {
        let rest = accepted_heads(listed.drop_first());
        if listed[0].desc.accepted() {
            seq![listed[0].desc.index] + rest
        } else {
            rest
        }
    }
}

/// The frames that the accepted chains list, in the order in which they came.
pub open spec fn accepted_frames(listed: Seq<Listed>) -> Seq<u32>
    decreases listed.len(),
{
    if listed.len() == 0 {
        Seq::empty()
    } else {
        let rest = accepted_frames(listed.drop_first());
        if listed[0].desc.accepted() {
            listed[0].frames + rest
        } else {
            rest
        }
    }
}

/// What the steps do from `page` on while its page frame numbers are read as `frames`,
/// and the step that they end with.
pub open spec fn page_run(page: Page, frames: Seq<u32>, regions: Seq<GuestRegion>) -> (
    Seq<Act>,
    StepModel,
)
    decreases frames.len(),
{
    if page.done() {
        (Seq::empty(), page.finish())
    } else if frames.len() == 0 {
        (Seq::empty(), StepModel::Walk(page))
    } else {
        match page.after_read(Ok(frames[0]), regions) {
            StepModel::Advise { addr, len, advice, rest } => {
                let (acts, end) = page_run(rest, frames.drop_first(), regions);
                (seq![Act::Advise { addr, len, advice }] + acts, end)
            },
            StepModel::Unmapped { addr, rest } => {
                let (acts, end) = page_run(rest, frames.drop_first(), regions);
                (seq![Act::Skip { addr }] + acts, end)
            },
            other => (Seq::empty(), other),
        }
    }
}

/// How many chains `step` and those after it hand back.
pub open spec fn left_after(step: StepModel) -> nat {
    match step {
        StepModel::Return { index: _, len: _, rest } => rest.heads.len() + 1,
        _ => 0,
    }
}

/// What `step` and the steps after it do once the last descriptor has come, and the result
/// that they end with.
pub open spec fn return_run(step: StepModel, trigger: Result<(), std::io::Error>) -> (
    Seq<Act>,
    Result<(), DeviceError>,
)
    decreases left_after(step),
{
    match step {
        StepModel::Return { index, len, rest } => {
            let (acts, result) = return_run(rest.step(), trigger);
            (seq![Act::Return { index, len }] + acts, result)
        },
        StepModel::Signal(kind) => (seq![Act::Signal(kind)], spec_signal(trigger)),
        StepModel::Done(result) => (Seq::empty(), result),
        _ => (Seq::empty(), Ok(())),
    }
}

/// What the steps do from `walk` on when the queue holds `listed`, and the result that
/// they end with.
pub open spec fn queue_run(
    walk: Walk,
    listed: Seq<Listed>,
    regions: Seq<GuestRegion>,
    trigger: Result<(), std::io::Error>,
) -> (Seq<Act>, Result<(), DeviceError>)
    decreases listed.len(),
{
    if listed.len() == 0 {
        return_run(walk.after(None), trigger)
    } else {
        match walk.after(Some(listed[0].desc)) {
            StepModel::Walk(page) => {
                let (acts, end) = page_run(page, listed[0].frames, regions);
                match end {
                    StepModel::Fetch(next) => {
                        let (more, result) = queue_run(
                            next,
                            listed.drop_first(),
                            regions,
                            trigger,
                        );
                        (acts + more, result)
                    },
                    _ => (acts, Ok(())),
                }
            },
            StepModel::Fetch(next) => queue_run(next, listed.drop_first(), regions, trigger),
            _ => (Seq::empty(), Ok(())),
        }
    }
}

/// A descriptor's page frame numbers are dealt with one by one, in the order in which
/// they are listed; then the chain is noted, and nothing else has changed.
pub proof fn descriptor_is_worked_through(
    page: Page,
    frames: Seq<u32>,
    regions: Seq<GuestRegion>,
)
    requires
        page.offset + PFN_LEN * frames.len() == page.desc.len,
    ensures
        page_run(page, frames, regions).0 == frames.map_values(
            |pfn: u32| frame_act(page.walk.kind, regions, pfn),
        ),
        page_run(page, frames, regions).1 == page.finish(),
    decreases frames.len(),
{
    let f = |pfn: u32| frame_act(page.walk.kind, regions, pfn);
    if frames.len() == 0 {
        assert(page_run(page, frames, regions).0 =~= frames.map_values(f));
    } else {
        let rest = page.advanced();
        descriptor_is_worked_through(rest, frames.drop_first(), regions);
        assert(frames.map_values(f) =~= seq![f(frames[0])] + frames.drop_first().map_values(f));
    }
}

/// The chains that are left are handed back in order, each with nothing written, and
/// then the guest is interrupted once.
pub proof fn chains_are_handed_back(left: Left, trigger: Result<(), std::io::Error>)
    ensures
        return_run(left.step(), trigger).0 == left.heads.map_values(
            |index: u16| Act::Return { index, len: 0 },
        ) + seq![Act::Signal(left.kind)],
        return_run(left.step(), trigger).1 == spec_signal(trigger),
    decreases left.heads.len(),
{
    let f = |index: u16| Act::Return { index, len: 0 };
    if left.heads.len() == 0 {
        assert(left.heads.map_values(f) + seq![Act::Signal(left.kind)] =~= seq![
            Act::Signal(left.kind),
        ]);
    } else {
        let rest = Left { kind: left.kind, heads: left.heads.drop_first() };
        chains_are_handed_back(rest, trigger);
        assert(left.heads.map_values(f) =~= seq![f(left.heads[0])] + rest.heads.map_values(f));
        assert(return_run(left.step(), trigger).0 =~= left.heads.map_values(f) + seq![
            Act::Signal(left.kind),
        ]);
    }
}

/// What the work on a queue does, when nothing is unreadable: for every frame that an
/// accepted chain lists, in order, it advises on the frame's page, or passes it over if
/// there is none; then it hands back the accepted chains, in order; then it interrupts
/// the guest, unless no chain was accepted. It ends with the outcome of the interrupt.
pub proof fn queue_is_worked_through(
    kind: QueueKind,
    listed: Seq<Listed>,
    regions: Seq<GuestRegion>,
    trigger: Result<(), std::io::Error>,
)
    requires
        complete(listed),
    ensures
        ({
            let heads = accepted_heads(listed);
            let advised = accepted_frames(listed).map_values(
                |pfn: u32| frame_act(kind, regions, pfn),
            );
            let (acts, result) = queue_run(Walk::start(kind), listed, regions, trigger);
            if heads.len() == 0 {
                acts == advised && result == Ok::<(), DeviceError>(())
            } else {
                &&& acts == advised + heads.map_values(
                    |index: u16| Act::Return { index, len: 0 },
                ) + seq![Act::Signal(kind)]
                &&& result == spec_signal(trigger)
            }
        }),
{
    lemma_queue_run(Walk::start(kind), listed, regions, trigger);
    assert(Walk::start(kind).used + accepted_heads(listed) =~= accepted_heads(listed));
}

proof fn lemma_queue_run(
    walk: Walk,
    listed: Seq<Listed>,
    regions: Seq<GuestRegion>,
    trigger: Result<(), std::io::Error>,
)
    requires
        complete(listed),
    ensures
        ({
            let heads = walk.used + accepted_heads(listed);
            let advised = accepted_frames(listed).map_values(
                |pfn: u32| frame_act(walk.kind, regions, pfn),
            );
            let (acts, result) = queue_run(walk, listed, regions, trigger);
            if heads.len() == 0 {
                acts == advised && result == Ok::<(), DeviceError>(())
            } else {
                &&& acts == advised + heads.map_values(
                    |index: u16| Act::Return { index, len: 0 },
                ) + seq![Act::Signal(walk.kind)]
                &&& result == spec_signal(trigger)
            }
        }),
    decreases listed.len(),
{
    let f = |pfn: u32| frame_act(walk.kind, regions, pfn);
    let g = |index: u16| Act::Return { index, len: 0 };
    let heads = walk.used + accepted_heads(listed);
    let advised = accepted_frames(listed).map_values(f);
    let tail = listed.drop_first();
    if listed.len() == 0 {
        assert(heads =~= walk.used);
        assert(advised =~= Seq::empty());
        chains_are_handed_back(Left { kind: walk.kind, heads: walk.used }, trigger);
        assert(advised + heads.map_values(g) + seq![Act::Signal(walk.kind)]
            =~= walk.used.map_values(g) + seq![Act::Signal(walk.kind)]);
    } else if listed[0].desc.accepted() {
        let page = Page { walk, desc: listed[0].desc, offset: 0 };
        descriptor_is_worked_through(page, listed[0].frames, regions);
        let next = Walk { kind: walk.kind, used: walk.used.push(listed[0].desc.index) };
        assert(complete(tail)) by {
            assert forall|i: int|
                0 <= i < tail.len() && (#[trigger] tail[i]).desc.accepted() implies PFN_LEN
                * tail[i].frames.len() == tail[i].desc.len by {
                assert(tail[i] == listed[i + 1]);
            }
        }
        lemma_queue_run(next, tail, regions, trigger);
        assert(next.used + accepted_heads(tail) =~= heads);
        assert(advised =~= listed[0].frames.map_values(f) + accepted_frames(tail).map_values(f));
        let (more, result) = queue_run(next, tail, regions, trigger);
        assert(queue_run(walk, listed, regions, trigger) == (
            listed[0].frames.map_values(f) + more,
            result,
        ));
        assert(listed[0].frames.map_values(f) + (accepted_frames(tail).map_values(f)
            + heads.map_values(g) + seq![Act::Signal(walk.kind)]) =~= advised + heads.map_values(g)
            + seq![Act::Signal(walk.kind)]);
    } else {
        assert(complete(tail)) by {
            assert forall|i: int|
                0 <= i < tail.len() && (#[trigger] tail[i]).desc.accepted() implies PFN_LEN
                * tail[i].frames.len() == tail[i].desc.len by {
                assert(tail[i] == listed[i + 1]);
            }
        }
        lemma_queue_run(walk, tail, regions, trigger);
    }
}

/// There is always room to note the chains: a descriptor that is admitted leaves no more
/// of them than a queue has entries.
pub proof fn chains_fit(walk: Walk, desc: Descriptor)
    requires
        walk.used.len() <= QUEUE_SIZE,
        walk.admits(desc),
    ensures
        match walk.after(Some(desc)) {
            StepModel::Fetch(next) => next == walk,
            StepModel::Walk(page) => page.finish() matches StepModel::Fetch(next)
                && next.used.len() == walk.used.len() + 1 && next.used.len() <= QUEUE_SIZE,
            _ => false,
        },
{
}

/// A page frame number that cannot be read is tried again: nothing has changed.
pub proof fn unreadable_frame_is_tried_again(
    page: Page,
    error: GuestMemoryError,
    regions: Seq<GuestRegion>,
)
    ensures
        page.after_read(Err(error), regions) == (StepModel::Unreadable {
            addr: page.cursor(),
            error,
            rest: page,
        }),
{
}

/// Deflating advises on the same bytes as inflating does, and passes over the same pages.
pub proof fn deflate_mirrors_inflate(regions: Seq<GuestRegion>, pfn: u32)
    ensures
        match frame_act(QueueKind::Inflate, regions, pfn) {
            Act::Advise { addr, len, advice: _ } => frame_act(QueueKind::Deflate, regions, pfn)
                == (Act::Advise { addr, len, advice: QueueKind::Deflate.spec_advice() }),
            other => frame_act(QueueKind::Deflate, regions, pfn) == other,
        },
        QueueKind::Inflate.spec_advice() != QueueKind::Deflate.spec_advice(),
{
}

/// What is advised on lies within the region's mapping: its first byte always, the whole
/// page if the region is made of whole pages.
pub proof fn advice_stays_in_the_mapping(
    kind: QueueKind,
    regions: Seq<GuestRegion>,
    pfn: u32,
    region: GuestRegion,
)
    requires
        region_at(regions, frame_address(pfn)) == Some(region),
    ensures
        frame_act(kind, regions, pfn) matches Act::Advise { addr, len, advice } && {
            &&& region.host <= addr < region.host + region.len
            &&& region.start as int % PAGE_SIZE as int == 0 && region.len as int % PAGE_SIZE as int
                == 0 ==> addr + len <= region.host + region.len
        },
{
    let addr = frame_address(pfn);
    assert(region.contains(addr));
    frames_are_page_aligned(pfn);
    if region.start as int % PAGE_SIZE as int == 0 && region.len as int % PAGE_SIZE as int == 0 {
        let k = addr / 4096;
        let s = region.start as int / 4096;
        let n = region.len as int / 4096;
        assert(addr == 4096 * k && region.start == 4096 * s && region.len == 4096 * n);
        assert(k + 1 <= s + n);
    }
}

/// A frame's address is that of a page.
pub proof fn frames_are_page_aligned(pfn: u32)
    ensures
        frame_address(pfn) % (PAGE_SIZE as int) == 0,
        0 <= frame_address(pfn) <= u32::MAX,
{
    let x: int = pfn * PAGE_SIZE;
    assert(x == 4096 * pfn);
    assert(x % 0x1_0000_0000 == x - 0x1_0000_0000 * (x / 0x1_0000_0000));
}

/// Two frames share a page if and only if their numbers agree in the low twenty bits.
pub proof fn frames_share_pages(a: u32, b: u32)
    ensures
        frame_address(a) == frame_address(b) <==> a % 0x10_0000 == b % 0x10_0000,
{
    assert((a * 4096) % 0x1_0000_0000 == 4096 * (a % 0x10_0000)) by (bit_vector);
    assert((b * 4096) % 0x1_0000_0000 == 4096 * (b % 0x10_0000)) by (bit_vector);
}

/// The page of a frame starts 4096 bytes above that of the frame before it, for the low
/// twenty bits of the number; the others do not matter.
pub proof fn frames_have_their_address(pfn: u32)
    ensures
        frame_address(pfn) == 4096 * (pfn % 0x10_0000),
{
    assert((pfn * 4096) % 0x1_0000_0000 == 4096 * (pfn % 0x10_0000)) by (bit_vector);
}

/// The first queue inflates the balloon, and its pages are dropped; the second deflates
/// it, and its pages are brought back.
pub proof fn queues_differ_in_place_and_advice()
    ensures
        QueueKind::Inflate.spec_index() == 0,
        QueueKind::Deflate.spec_index() == 1,
        QueueKind::Inflate.spec_advice() == 4,
        QueueKind::Deflate.spec_advice() == 3,
{
}

/// A descriptor is accepted if and only if the device may read its buffer and its length
/// is a multiple of four.
pub proof fn readable_whole_buffers_are_accepted(desc: Descriptor)
    ensures
        desc.accepted() <==> !desc.write_only && exists|n: int| desc.len == #[trigger] (4 * n),
{
    if desc.len as int % 4 == 0 {
        assert(desc.len == 4 * (desc.len as int / 4));
    }
}

/// The only descriptors that cannot be worked on are, of those that are accepted, one that
/// comes after as many others as the queue has entries, and one of which the last page
/// frame number has no 64-bit address.
pub proof fn descriptors_are_admitted(walk: Walk, desc: Descriptor)
    ensures
        !desc.accepted() ==> walk.admits(desc),
        desc.accepted() ==> (walk.admits(desc) <==> walk.used.len() < 128 && (desc.len == 0
            || desc.addr + desc.len - 4 < 0x1_0000_0000_0000_0000)),
{
}

/// The work starts with no chain noted. A descriptor that is not accepted leaves it as it
/// was; one that is accepted is worked on from its first byte.
pub proof fn descriptor_is_taken_or_left(kind: QueueKind, walk: Walk, desc: Descriptor)
    ensures
        Walk::start(kind).kind == kind,
        Walk::start(kind).used.len() == 0,
        desc.write_only ==> walk.after(Some(desc)) == StepModel::Fetch(walk),
        desc.len % 4 != 0 ==> walk.after(Some(desc)) == StepModel::Fetch(walk),
        !desc.write_only && desc.len % 4 == 0 ==> walk.after(Some(desc)) == StepModel::Walk(
            Page { walk, desc, offset: 0 },
        ),
{
}

/// After the last descriptor, the first chain that was noted is handed back, with nothing
/// written, and the others are left; without any, the work is done, and well.
pub proof fn last_descriptor_begins_the_return(walk: Walk)
    ensures
        walk.used.len() == 0 ==> walk.after(None) == StepModel::Done(Ok(())),
        walk.used.len() > 0 ==> walk.after(None) == (StepModel::Return {
            index: walk.used[0],
            len: 0,
            rest: Left { kind: walk.kind, heads: walk.used.drop_first() },
        }),
{
}

/// While chains are left, the first of them is handed back, with nothing written; when
/// none is left, the guest is interrupted for the queue.
pub proof fn chains_leave_one_by_one(left: Left)
    ensures
        left.heads.len() == 0 ==> left.step() == StepModel::Signal(left.kind),
        left.heads.len() > 0 ==> left.step() == (StepModel::Return {
            index: left.heads[0],
            len: 0,
            rest: Left { kind: left.kind, heads: left.heads.drop_first() },
        }),
{
}

/// A descriptor is done with when its bytes are used up. Its chain is then noted behind
/// those that came before it.
pub proof fn descriptor_ends_with_its_buffer(page: Page)
    ensures
        page.done() <==> page.desc.len <= page.offset,
        page.cursor() == page.desc.addr + page.offset,
        page.finish() matches StepModel::Fetch(next) && {
            &&& next.kind == page.walk.kind
            &&& next.used.len() == page.walk.used.len() + 1
            &&& next.used.drop_last() == page.walk.used
            &&& next.used.last() == page.desc.index
        },
{
    assert(page.walk.used.push(page.desc.index).drop_last() =~= page.walk.used);
}

/// What a frame number leads to: advice on the 4096 bytes of its page, at the place of the
/// page in the mapping of the region that it lies in, or nothing if it lies in none; in
/// either case the descriptor goes on four bytes further.
pub proof fn frame_number_decides_the_page(page: Page, pfn: u32, regions: Seq<GuestRegion>)
    ensures
        ({
            let addr: int = 4096 * (pfn % 0x10_0000);
            let rest = Page { walk: page.walk, desc: page.desc, offset: page.offset + 4 };
            let step = page.after_read(Ok(pfn), regions);
            match region_at(regions, addr) {
                Some(region) => step == (StepModel::Advise {
                    addr: region.host + (addr - region.start),
                    len: 4096,
                    advice: match page.walk.kind {
                        QueueKind::Inflate => 4,
                        QueueKind::Deflate => 3,
                    },
                    rest,
                }),
                None => step == (StepModel::Unmapped { addr, rest }),
            }
        }),
{
    frames_have_their_address(pfn);
}

/// An interrupt that was delivered is a success; one that was not is told with its reason.
pub proof fn interrupt_outcome_is_kept(reason: std::io::Error)
    ensures
        spec_signal(Ok(())) == Ok::<(), DeviceError>(()),
        spec_signal(Err(reason)) == Err::<(), DeviceError>(
            DeviceError::FailedSignalingUsedQueue(reason),
        ),
{
}

/// What a step shows to the caller is what it stands for.
pub proof fn steps_stand_for_what_they_show(step: QueueStep)
    ensures
        match step {
            QueueStep::Fetch(walk) => step@ == StepModel::Fetch(walk@),
            QueueStep::Walk(page) => step@ == StepModel::Walk(page@),
            QueueStep::Advise { addr, len, advice, rest } => step@ == (StepModel::Advise {
                addr: addr as int,
                len: len as int,
                advice,
                rest: rest@,
            }),
            QueueStep::Unmapped { addr, rest } => step@ == (StepModel::Unmapped {
                addr: addr as int,
                rest: rest@,
            }),
            QueueStep::Unreadable { addr, error, rest } => step@ == (StepModel::Unreadable {
                addr: addr as int,
                error,
                rest: rest@,
            }),
            QueueStep::Return { index, len, rest } => step@ == (StepModel::Return {
                index,
                len,
                rest: rest@,
            }),
            QueueStep::Signal(rest) => step@ == StepModel::Signal(rest@),
            QueueStep::Done(result) => step@ == StepModel::Done(result),
        },
{
}

/// The descriptor that `step` goes on with.
pub open spec fn carried(step: StepModel) -> Option<Page> {
    match step {
        StepModel::Walk(page) => Some(page),
        StepModel::Advise { addr: _, len: _, advice: _, rest } => Some(rest),
        StepModel::Unmapped { addr: _, rest } => Some(rest),
        StepModel::Unreadable { addr: _, error: _, rest } => Some(rest),
        _ => None,
    }
}

/// `next` is what can come of `page` when its next page frame number is read from the
/// guest's memory: the one at the descriptor's address plus the bytes that are used up.
pub open spec fn reads_on(page: Page, map: GuestMap<'_>, next: StepModel) -> bool {
    exists|read: Result<u32, GuestMemoryError>|
        map.holds((page.desc.addr + page.offset) as u64, read) && next
            == #[trigger] page.after_read(read, map@)
}

/// When the guest's memory holds the words `content`, a descriptor is advised on for
/// exactly the words of its buffer: the n-th step is about the page whose frame number is
/// the word 4n bytes into it.
pub proof fn words_of_the_buffer_are_advised_on(
    map: GuestMap<'_>,
    walk: Walk,
    desc: Descriptor,
    content: spec_fn(int) -> u32,
    steps: Seq<StepModel>,
    n: int,
)
    requires
        0 <= n,
        4 * n + 4 <= desc.len,
        desc.addr + desc.len - 4 <= u64::MAX,
        steps.len() == n + 2,
        steps[0] == StepModel::Walk(Page { walk, desc, offset: 0 }),
        forall|k: int|
            0 <= k <= n ==> (carried(#[trigger] steps[k]) matches Some(page) ==> reads_on(
                page,
                map,
                steps[k + 1],
            )),
        forall|addr: u64, read: Result<u32, GuestMemoryError>| #[trigger]
            map.holds(addr, read) ==> read == Ok::<u32, GuestMemoryError>(content(addr as int)),
    ensures
        ({
            let addr: int = 4096 * (content(desc.addr + 4 * n) % 0x10_0000);
            let rest = Page { walk, desc, offset: 4 * n + 4 };
            match region_at(map@, addr) {
                Some(region) => steps[n + 1] == (StepModel::Advise {
                    addr: region.host + (addr - region.start),
                    len: 4096,
                    advice: match walk.kind {
                        QueueKind::Inflate => 4,
                        QueueKind::Deflate => 3,
                    },
                    rest,
                }),
                None => steps[n + 1] == (StepModel::Unmapped { addr, rest }),
            }
        }),
    decreases n,
{
    let page = Page { walk, desc, offset: 4 * n };
    if n > 0 {
        let before = steps.drop_last();
        assert forall|k: int| 0 <= k <= n - 1 implies (carried(#[trigger] before[k]) matches Some(
            page,
        ) ==> reads_on(page, map, before[k + 1])) by {
            assert(before[k] == steps[k] && before[k + 1] == steps[k + 1]);
        }
        words_of_the_buffer_are_advised_on(map, walk, desc, content, before, n - 1);
        assert(before[n] == steps[n]);
    }
    assert(carried(steps[n]) == Some(page));
    assert(reads_on(page, map, steps[n + 1]));
    let read = choose|read: Result<u32, GuestMemoryError>|
        map.holds((page.desc.addr + page.offset) as u64, read) && steps[n + 1]
            == #[trigger] page.after_read(read, map@);
    frame_number_decides_the_page(page, content(desc.addr + 4 * n), map@);
}

} // verus!
