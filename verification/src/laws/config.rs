//! What holds of the configuration space.

use crate::config::{
    le_bytes, overlay, pages_in, word_bytes, VirtioBalloonConfig, CONFIG_LEN, PAGE_SIZE,
};
use vstd::prelude::*;

verus! {

/// Reading everything gives the whole configuration space.
pub proof fn full_read_gives_the_space(
    config: VirtioBalloonConfig,
    low_first: bool,
    data: Seq<u8>,
)
    requires
        data.len() == CONFIG_LEN,
    ensures
        overlay(config.image(low_first), 0, data) == config.image(low_first),
{
    assert(overlay(config.image(low_first), 0, data) =~= config.image(low_first));
}

/// Reading at or beyond the end of the space changes nothing.
pub proof fn read_past_the_end_changes_nothing(space: Seq<u8>, offset: int, data: Seq<u8>)
    requires
        offset >= space.len(),
    ensures
        overlay(space, offset, data) == data,
{
    assert(overlay(space, offset, data) =~= data);
}

/// Reading in two parts gives the same as reading at once.
pub proof fn reads_compose(space: Seq<u8>, offset: int, first: Seq<u8>, second: Seq<u8>)
    ensures
        overlay(space, offset, first + second) == overlay(space, offset, first) + overlay(
            space,
            offset + first.len(),
            second,
        ),
{
    assert(overlay(space, offset, first + second) =~= overlay(space, offset, first) + overlay(
        space,
        offset + first.len(),
        second,
    ));
}

proof fn lemma_le_bytes(word: u32)
    ensures
        word == le_bytes(word)[0] + 0x100 * le_bytes(word)[1] + 0x1_0000 * le_bytes(word)[2]
            + 0x100_0000 * le_bytes(word)[3],
{
    let w = word as int;
    assert(w / 0x1_0000 == w / 0x100 / 0x100);
    assert(w / 0x100_0000 == w / 0x100 / 0x100 / 0x100);
}

proof fn lemma_word_bytes_inj(a: u32, b: u32, low_first: bool)
    requires
        word_bytes(a, low_first) == word_bytes(b, low_first),
    ensures
        a == b,
{
    lemma_le_bytes(a);
    lemma_le_bytes(b);
    if !low_first {
        assert(le_bytes(a) =~= word_bytes(a, low_first).reverse());
        assert(le_bytes(b) =~= word_bytes(b, low_first).reverse());
    }
}

/// The configuration can be told from its space.
pub proof fn space_determines_config(
    a: VirtioBalloonConfig,
    b: VirtioBalloonConfig,
    low_first: bool,
)
    requires
        a.image(low_first) == b.image(low_first),
    ensures
        a == b,
{
    let (x, y) = (a.image(low_first), b.image(low_first));
    assert(word_bytes(a.num_pages, low_first) =~= x.subrange(0, 4));
    assert(word_bytes(b.num_pages, low_first) =~= y.subrange(0, 4));
    assert(word_bytes(a.actual, low_first) =~= x.subrange(4, 8));
    assert(word_bytes(b.actual, low_first) =~= y.subrange(4, 8));
    lemma_word_bytes_inj(a.num_pages, b.num_pages, low_first);
    lemma_word_bytes_inj(a.actual, b.actual, low_first);
}

/// The pages that are asked for fit into the requested size, and no further page does,
/// for every size below sixteen tebibytes.
pub proof fn pages_fill_the_size(size: u64)
    requires
        size < 0x1000_0000_0000,
    ensures
        pages_in(size) * PAGE_SIZE <= size < (pages_in(size) + 1) * PAGE_SIZE,
{
}

/// The driver finds the number of pages in the first four bytes of the space, and the
/// actual number in the last four: on a machine that keeps the low byte first, as they
/// stand, on one that keeps it last, when the four are read backwards.
pub proof fn driver_reads_the_fields(config: VirtioBalloonConfig)
    ensures
        ({
            let space = config.image(true);
            &&& space.len() == 8
            &&& space[0] + 0x100 * space[1] + 0x1_0000 * space[2] + 0x100_0000 * space[3]
                == config.num_pages
            &&& space[4] + 0x100 * space[5] + 0x1_0000 * space[6] + 0x100_0000 * space[7]
                == config.actual
        }),
        ({
            let space = config.image(false);
            &&& space.len() == 8
            &&& space[3] + 0x100 * space[2] + 0x1_0000 * space[1] + 0x100_0000 * space[0]
                == config.num_pages
            &&& space[7] + 0x100 * space[6] + 0x1_0000 * space[5] + 0x100_0000 * space[4]
                == config.actual
        }),
{
    lemma_le_bytes(config.num_pages);
    lemma_le_bytes(config.actual);
    let (a, b) = (le_bytes(config.num_pages), le_bytes(config.actual));
    let space = config.image(false);
    assert forall|i: int| 0 <= i < 4 implies #[trigger] space[i] == a[3 - i] && space[i + 4] == b[3
        - i] by {
        assert(space[i] == a.reverse()[i]);
        assert(space[i + 4] == b.reverse()[i]);
    }
    assert(space[0] == a[3] && space[1] == a[2] && space[2] == a[1] && space[3] == a[0]);
    assert(space[4] == b[3] && space[5] == b[2] && space[6] == b[1] && space[7] == b[0]);
}

/// A read fills the buffer with the bytes of the space from the offset on, each at its
/// place, and leaves what lies beyond the space; it never changes the buffer's length.
pub proof fn read_copies_byte_by_byte(space: Seq<u8>, offset: int, data: Seq<u8>, i: int)
    requires
        0 <= i < data.len(),
    ensures
        overlay(space, offset, data).len() == data.len(),
        offset + i < space.len() ==> overlay(space, offset, data)[i] == space[offset + i],
        offset + i >= space.len() ==> overlay(space, offset, data)[i] == data[i],
{
}

/// A page more is asked for with every 4096 bytes, and none for less; the count starts
/// again from nothing after 2^32 pages.
pub proof fn pages_count_up(size: u64, less: u64)
    requires
        less < PAGE_SIZE,
    ensures
        size < 4096 ==> pages_in(size) == 0,
        size as int % 4096 == 0 && size + less <= u64::MAX ==> pages_in((size + less) as u64)
            == pages_in(size),
        size + 4096 <= u64::MAX ==> pages_in((size + 4096) as u64) == if pages_in(size)
            == 0xffff_ffff {
            0
        } else {
            pages_in(size) + 1
        },
{
    let p = size as int / 4096;
    assert(size + 4096 <= u64::MAX ==> (size + 4096) / 4096 == p + 1);
    assert((p + 1) % 0x1_0000_0000 == if p % 0x1_0000_0000 == 0xffff_ffff {
        0
    } else {
        p % 0x1_0000_0000 + 1
    });
    if size as int % 4096 == 0 {
        assert((size + less) / 4096 == p);
    }
}

} // verus!
