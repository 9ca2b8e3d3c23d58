//! What holds of lookups in the guest's memory.

use crate::memory::{covered, no_empty_region, region_at, GuestRegion};
use vstd::prelude::*;

verus! {

/// The region that is found for an address is one of the guest's, and the address lies in
/// it; none is found only if the address lies in none of them.
pub proof fn address_is_found_in_its_region(regions: Seq<GuestRegion>, addr: int)
    ensures
        match region_at(regions, addr) {
            Some(region) => {
                &&& exists|i: int| 0 <= i < regions.len() && #[trigger] regions[i] == region
                &&& region.start <= addr
                &&& addr < region.start + region.len
            },
            None => forall|i: int|
                0 <= i < regions.len() ==> addr < (#[trigger] regions[i]).start || addr
                    >= regions[i].start + regions[i].len,
        },
{
    if region_at(regions, addr) is Some {
        let i = choose|i: int| 0 <= i < regions.len() && (#[trigger] regions[i]).contains(addr);
        assert(region_at(regions, addr) == Some(regions[i]));
    } else {
        assert forall|i: int| 0 <= i < regions.len() implies addr < (#[trigger] regions[i]).start
            || addr >= regions[i].start + regions[i].len by {
            assert(!regions[i].contains(addr));
        }
    }
}

/// Where regions do not overlap, the one that an address lies in is the one that is found.
pub proof fn region_is_found_by_any_of_its_addresses(
    regions: Seq<GuestRegion>,
    i: int,
    addr: int,
)
    requires
        0 <= i < regions.len(),
        regions[i].start <= addr < regions[i].start + regions[i].len,
        forall|j: int, k: int|
            0 <= j < k < regions.len() ==> (#[trigger] regions[j]).start + regions[j].len <= (
            #[trigger] regions[k]).start,
    ensures
        region_at(regions, addr) == Some(regions[i]),
{
    assert(regions[i].contains(addr));
    let j = choose|j: int| 0 <= j < regions.len() && (#[trigger] regions[j]).contains(addr);
    assert(regions[j].contains(addr));
    if i < j {
        assert(regions[i].start + regions[i].len <= regions[j].start);
    } else if j < i {
        assert(regions[j].start + regions[j].len <= regions[i].start);
    }
}

/// A byte is covered if and only if it lies in a region.
pub proof fn covered_byte_lies_in_a_region(regions: Seq<GuestRegion>, addr: int)
    ensures
        covered(regions, addr, 1) <==> exists|i: int|
            0 <= i < regions.len() && (#[trigger] regions[i]).start <= addr < regions[i].start
                + regions[i].len,
{
    address_is_found_in_its_region(regions, addr);
    if covered(regions, addr, 1) {
        assert(region_at(regions, addr) is Some);
    }
}

/// Bytes are covered if and only if those before any point among them are and those from
/// there on are.
pub proof fn coverage_is_byte_by_byte(
    regions: Seq<GuestRegion>,
    addr: int,
    first: int,
    second: int,
)
    requires
        0 <= first,
        0 <= second,
    ensures
        covered(regions, addr, 0),
        covered(regions, addr, first + second) <==> covered(regions, addr, first) && covered(
            regions,
            addr + first,
            second,
        ),
{
}

/// No region is empty if and only if each has a length.
pub proof fn regions_have_a_length(regions: Seq<GuestRegion>)
    ensures
        no_empty_region(regions) <==> forall|i: int|
            0 <= i < regions.len() ==> (#[trigger] regions[i]).len != 0,
{
}

} // verus!
