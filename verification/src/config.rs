//! The device's configuration space.

use vm_memory::ByteValued;
use vstd::prelude::*;

verus! {

/// Number of address bits within a page.
pub const PAGE_SHIFT: u32 = 12;

/// Bytes in a page.
pub const PAGE_SIZE: u64 = 4096;

/// Bytes in the configuration space.
pub const CONFIG_LEN: u64 = 8;

/// What the device tells the driver about itself.
#[derive(Clone, Copy, Debug, PartialEq, Eq, Structural)]
pub struct VirtioBalloonConfig {
    /// Number of pages the host wants the guest to give up.
    pub num_pages: u32,
    /// Number of pages that the balloon has actually got.
    pub actual: u32,
}

/// The whole pages in `size` bytes, of which the configuration keeps the low 32 bits.
pub open spec fn pages_in(size: u64) -> int {
    (size as int / PAGE_SIZE as int) % 0x1_0000_0000
}

/// The number that is asked of the guest when the balloon is to hold `size` bytes.
pub fn num_pages(size: u64) -> (r: u32)
    ensures
        r == pages_in(size),
        r as int == (size as int / 4096) % 0x1_0000_0000,
{
    assert(size >> 12u32 == size / 4096) by (bit_vector);
    let pages: u64 = size >> PAGE_SHIFT;
    assert(pages as u32 == pages % 0x1_0000_0000) by (bit_vector);
    #[verifier::truncate]
    (pages as u32)
}

/// The four bytes of `word`, the lowest first.
pub open spec fn le_bytes(word: u32) -> Seq<u8> {
    seq![
        (word as int % 0x100) as u8,
        (word as int / 0x100 % 0x100) as u8,
        (word as int / 0x1_0000 % 0x100) as u8,
        (word as int / 0x100_0000) as u8,
    ]
}

/// The four bytes of `word` in memory, on a machine that keeps the low byte first or
/// on one that keeps it last.
pub open spec fn word_bytes(word: u32, low_first: bool) -> Seq<u8> {
    if low_first {
        le_bytes(word)
    } else {
        le_bytes(word).reverse()
    }
}

/// `ByteValued::as_slice` for `[u32; 2]`: the words' bytes as they lie in memory, each
/// word in the byte order of the machine, which is the same for both.
#[verifier::external_body]
fn words_as_bytes(words: [u32; 2]) -> (r: Vec<u8>)
    ensures
        exists|low_first: bool|
            r@ == #[trigger] word_bytes(words@[0], low_first) + word_bytes(words@[1], low_first),
{
    ByteValued::as_slice(&words).to_vec()
}

/// What `data` holds once the part of `space` from `offset` on has been copied over its
/// start, as far as either of them reaches.
pub open spec fn overlay(space: Seq<u8>, offset: int, data: Seq<u8>) -> Seq<u8> {
    Seq::new(
        data.len(),
        |i: int|
            if offset + i < space.len() {
                space[offset + i]
            } else {
                data[i]
            },
    )
}

/// Copies the part of `space` from `offset` on over the start of `data`, as far as
/// either of them reaches.
pub fn copy_from(space: &[u8], offset: u64, data: &mut [u8])
    ensures
        final(data)@ == overlay(space@, offset as int, old(data)@),
        final(data)@.len() == old(data)@.len(),
        forall|i: int|
            0 <= i < old(data)@.len() ==> (#[trigger] final(data)@[i]) == if offset + i
                < space@.len() {
                space@[offset + i]
            } else {
                old(data)@[i]
            },
{
    let space_len: u64 = space.len() as u64;
    if offset >= space_len {
        assert(data@ =~= overlay(space@, offset as int, data@));
        return;
    }
    let begin: usize = offset as usize;
    let ghost before = data@;
    let mut i: usize = 0;
    while i < data.len() && i < space.len() - begin
        invariant
            begin == offset,
            begin < space@.len(),
            i <= space@.len() - begin,
            i <= data@.len(),
            data@.len() == before.len(),
            forall|j: int| 0 <= j < i ==> (#[trigger] data@[j]) == space@[begin + j],
            forall|j: int| i <= j < before.len() ==> (#[trigger] data@[j]) == before[j],
        decreases data@.len() - i,
    {
        data[i] = space[begin + i];
        i += 1;
    }
    assert(data@ =~= overlay(space@, offset as int, before));
}

impl Default for VirtioBalloonConfig {
    /// An empty balloon, of which nothing is asked.
    fn default() -> (r: Self)
        ensures
            r == (VirtioBalloonConfig { num_pages: 0, actual: 0 }),
    {
        VirtioBalloonConfig { num_pages: 0, actual: 0 }
    }
}

impl VirtioBalloonConfig {
    /// The configuration space as the driver reads it: the two fields, in order, each
    /// in the byte order of the machine.
    pub open spec fn image(self, low_first: bool) -> Seq<u8> {
        word_bytes(self.num_pages, low_first) + word_bytes(self.actual, low_first)
    }

    /// `bytes` are the two fields, in order, as the machine can lay them out.
    pub closed spec fn laid_out(self, bytes: Vec<u8>) -> bool {
        call_ensures(words_as_bytes, ([self.num_pages, self.actual],), bytes)
    }

    /// The machine lays out the number of pages first, and then the actual number.
    proof fn layout_comes_from_the_machine(self, bytes: Vec<u8>)
        requires
            self.laid_out(bytes),
        ensures
            call_ensures(words_as_bytes, ([self.num_pages, self.actual],), bytes),
    {
    }

    /// Lays out the configuration space. The machine decides on the byte order.
    pub fn to_bytes(&self) -> (r: Vec<u8>)
        ensures
            exists|low_first: bool| r@ == #[trigger] self.image(low_first),
            r@.len() == CONFIG_LEN,
            self.laid_out(r),
    {
        let r = words_as_bytes([self.num_pages, self.actual]);
        proof {
            let low_first = choose|low_first: bool|
                r@ == #[trigger] word_bytes(self.num_pages, low_first) + word_bytes(
                    self.actual,
                    low_first,
                );
            assert(r@ == self.image(low_first));
        }
        r
    }

    /// Reads the configuration space from `offset` on into `data`. What lies beyond
    /// the space is left as it was.
    pub fn read_config(&self, offset: u64, data: &mut [u8])
        ensures
            exists|low_first: bool|
                final(data)@ == overlay(
                    #[trigger] self.image(low_first),
                    offset as int,
                    old(data)@,
                ),
            exists|bytes: Vec<u8>| #[trigger]
                self.laid_out(bytes) && final(data)@ == overlay(
                    bytes@,
                    offset as int,
                    old(data)@,
                ),
    {
        let bytes = self.to_bytes();
        copy_from(bytes.as_slice(), offset, data);
    }

    /// The driver cannot change the configuration: nothing happens.
    pub fn write_config(&mut self, _offset: u64, _data: &[u8])
        ensures
            *final(self) == *old(self),
    {
    }

    /// Asks the guest to give up `num_pages` pages.
    pub fn set_num_pages(&mut self, num_pages: u32)
        ensures
            *final(self) == (VirtioBalloonConfig { num_pages, actual: old(self).actual }),
    {
        self.num_pages = num_pages;
    }
}

} // verus!
