//! The guest's physical memory, as the regions that are mapped into this process.

use vm_memory::{
    Address, Bytes, GuestAddress, GuestMemory, GuestMemoryError, GuestMemoryMmap,
    GuestMemoryRegion,
};
use vstd::prelude::*;

verus! {

/// One stretch of guest memory and where it is mapped.
#[derive(Clone, Copy, Debug, PartialEq, Eq, Structural)]
pub struct GuestRegion {
    /// First guest physical address.
    pub start: u64,
    /// Length in bytes.
    pub len: u64,
    /// Address of the first byte in this process.
    pub host: u64,
}

impl GuestRegion {
    /// The guest physical address `addr` lies in this region.
    pub open spec fn contains(self, addr: int) -> bool {
        self.start <= addr < self.start + self.len
    }

    /// Neither the guest range nor the host range wraps around.
    pub open spec fn wf(self) -> bool {
        &&& self.start + self.len <= u64::MAX
        &&& self.host + self.len <= u64::MAX
    }
}

/// The region of `regions` that contains `addr`.
pub open spec fn region_at(regions: Seq<GuestRegion>, addr: int) -> Option<GuestRegion> {
    if exists|i: int| 0 <= i < regions.len() && (#[trigger] regions[i]).contains(addr) {
        Some(
            regions[choose|i: int|
                0 <= i < regions.len() && (#[trigger] regions[i]).contains(addr)],
        )
    } else {
        None
    }
}

/// Every one of the `count` bytes from `addr` on lies in a region.
pub open spec fn covered(regions: Seq<GuestRegion>, addr: int, count: int) -> bool {
    forall|a: int| addr <= a < addr + count ==> (#[trigger] region_at(regions, a)) is Some
}

/// Every region holds at least one byte.
pub open spec fn no_empty_region(regions: Seq<GuestRegion>) -> bool {
    forall|i: int| 0 <= i < regions.len() ==> (#[trigger] regions[i]).len > 0
}

/// `vm_memory::GuestMemoryMmap`, the collection of mapped regions.
#[verifier::external_type_specification]
#[verifier::external_body]
pub struct ExGuestMemoryMmap(GuestMemoryMmap);

/// The regions that `mem` holds, in the order in which it keeps them.
pub uninterp spec fn guest_regions(mem: GuestMemoryMmap) -> Seq<GuestRegion>;

/// `GuestMemory::iter`: hands out every region that the collection holds, in order.
#[verifier::external_body]
fn list_regions(mem: &GuestMemoryMmap) -> (r: Vec<GuestRegion>)
    ensures
        r@ == guest_regions(*mem),
{
    mem.iter().map(|r| GuestRegion {
        start: r.start_addr().raw_value(),
        len: r.len(),
        host: r.as_ptr() as u64,
    }).collect()
}

/// `GuestMemory::find_region`: the region that contains `addr`, or nothing if there
/// is none. The collection refuses regions that overlap, so no second one contains it.
/// A region's guest range is checked not to wrap when it is made, and its host range
/// is a mapping, which does not wrap either. Defined for regions that are not empty.
#[verifier::external_body]
fn find_region(mem: &GuestMemoryMmap, addr: u64) -> (r: Option<GuestRegion>)
    requires
        no_empty_region(guest_regions(*mem)),
    ensures
        r == region_at(guest_regions(*mem), addr as int),
        r matches Some(region) ==> region.wf(),
{
    mem.find_region(GuestAddress(addr)).map(|r| GuestRegion {
        start: r.start_addr().raw_value(),
        len: r.len(),
        host: r.as_ptr() as u64,
    })
}

/// `Bytes::read_obj` for `u32`: succeeds if and only if every byte read lies in a
/// region; a read may run from one region into the next. The value is whatever the
/// guest's memory holds at that moment, of which nothing is claimed. Defined for
/// regions that are not empty.
#[verifier::external_body]
fn read_u32(mem: &GuestMemoryMmap, addr: u64) -> (r: Result<u32, GuestMemoryError>)
    requires
        no_empty_region(guest_regions(*mem)),
    ensures
        r is Ok <==> covered(guest_regions(*mem), addr as int, 4),
{
    mem.read_obj(GuestAddress(addr))
}

/// A guest memory whose regions all hold something, as lookups need them.
pub struct GuestMap<'a> {
    mem: &'a GuestMemoryMmap,
}

impl<'a> View for GuestMap<'a> {
    type V = Seq<GuestRegion>;

    closed spec fn view(&self) -> Seq<GuestRegion> {
        guest_regions(*self.mem)
    }
}

impl<'a> GuestMap<'a> {
    #[verifier::type_invariant]
    spec fn inv(self) -> bool {
        no_empty_region(guest_regions(*self.mem))
    }

    /// `read` can come of asking the guest's memory for the 32-bit word at the guest
    /// physical address `addr`.
    pub closed spec fn holds(self, addr: u64, read: Result<u32, GuestMemoryError>) -> bool {
        call_ensures(read_u32, (self.mem, addr), read)
    }

    /// What holds at an address comes from reading the guest's memory at that address.
    proof fn words_come_from_their_address(
        self,
        addr: u64,
        read: Result<u32, GuestMemoryError>,
    )
        requires
            self.holds(addr, read),
        ensures
            call_ensures(read_u32, (self.mem, addr), read),
            self@ == guest_regions(*self.mem),
    {
    }

    /// Takes `mem` for lookups, unless one of its regions is empty.
    pub fn new(mem: &'a GuestMemoryMmap) -> (r: Option<Self>)
        ensures
            r is Some <==> no_empty_region(guest_regions(*mem)),
            r is None <==> exists|i: int|
                0 <= i < guest_regions(*mem).len() && (#[trigger] guest_regions(*mem)[i]).len
                    == 0,
            r matches Some(map) ==> map@ == guest_regions(*mem),
    {
        let regions = list_regions(mem);
        let mut i: usize = 0;
        while i < regions.len()
            invariant
                i <= regions@.len(),
                regions@ == guest_regions(*mem),
                forall|j: int| 0 <= j < i ==> (#[trigger] regions@[j]).len > 0,
            decreases regions@.len() - i,
        {
            if regions[i].len == 0 {
                assert(guest_regions(*mem)[i as int].len == 0);
                return None;
            }
            i += 1;
        }
        Some(GuestMap { mem })
    }

    /// The region that contains the guest physical address `addr`.
    pub fn find_region(&self, addr: u64) -> (r: Option<GuestRegion>)
        ensures
            r == region_at(self@, addr as int),
            r matches Some(region) ==> region.wf() && region.contains(addr as int),
    {
        proof {
            use_type_invariant(self);
        }
        find_region(self.mem, addr)
    }

    /// Reads the 32-bit word at the guest physical address `addr`. The guest can change
    /// its memory at any time, so of the value nothing is said.
    pub fn read_u32(&self, addr: u64) -> (r: Result<u32, GuestMemoryError>)
        ensures
            r is Ok <==> covered(self@, addr as int, 4),
            self.holds(addr, r),
    {
        proof {
            use_type_invariant(self);
        }
        read_u32(self.mem, addr)
    }
}

} // verus!
