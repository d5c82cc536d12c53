//! The regions of the memory of a guest.
//!
//! A region is a mapping of the host together with an address of the guest. The memory keeps its
//! regions in the order of their addresses, and no two of them overlap. No region is empty, because
//! nothing can be mapped without a byte.

use std::sync::Arc;
use vm_memory::GuestAddress;
use vm_memory::GuestMemory;
use vm_memory::GuestMemoryMmap;
use vm_memory::GuestRegionMmap;
use vm_memory::MmapRegion;
use vstd::prelude::*;

verus! {

/// Declares [`vm_memory::MmapRegion`].
#[verifier::external_type_specification]
#[verifier::external_body]
#[verifier::reject_recursive_types(B)]
pub struct ExMmapRegion<B>(vm_memory::MmapRegion<B>);

/// Declares [`vm_memory::GuestRegionMmap`].
#[verifier::external_type_specification]
#[verifier::external_body]
#[verifier::reject_recursive_types(B)]
pub struct ExGuestRegionMmap<B>(vm_memory::GuestRegionMmap<B>);

/// Declares [`vm_memory::Error`].
#[verifier::external_type_specification]
#[verifier::external_body]
pub struct ExMemoryError(vm_memory::Error);

/// Where a region is in the guest.
pub struct GuestRange {
    /// The address of its first byte.
    pub start: u64,
    /// The number of its bytes.
    pub len: u64,
}

/// The number of bytes of a mapping.
pub uninterp spec fn mapping_size(mapping: MmapRegion<()>) -> usize;

/// Where a region is in the guest.
pub uninterp spec fn region_range(region: GuestRegionMmap<()>) -> GuestRange;

/// Where the regions of a memory are in the guest, in the order of their addresses.
pub uninterp spec fn memory_regions(mem: GuestMemoryMmap<()>) -> Seq<GuestRange>;

/// Whether `len` bytes from an address on, of which there is at least the first, lie in a range.
pub open spec fn range_holds(range: GuestRange, addr: int, len: int) -> bool {
    &&& range.start <= addr < range.start + range.len
    &&& addr + len <= range.start + range.len
}

/// Whether `len` bytes from an address of the guest on lie in one region of its memory.
pub open spec fn memory_holds(mem: GuestMemoryMmap<()>, addr: u64, len: usize) -> bool {
    exists|i: int|
        0 <= i < memory_regions(mem).len() && range_holds(
            #[trigger] memory_regions(mem)[i],
            addr as int,
            len as int,
        )
}

/// Whether a 16-bit integer at an address of the guest can be read and written at once: its bytes
/// lie in one region of the memory, at an even distance from where the region starts, because
/// regions are mapped to whole pages of the host.
pub open spec fn memory_has_u16(mem: GuestMemoryMmap<()>, addr: u64) -> bool {
    exists|i: int|
        0 <= i < memory_regions(mem).len() && range_holds(
            #[trigger] memory_regions(mem)[i],
            addr as int,
            2,
        ) && (addr - memory_regions(mem)[i].start) % 2 == 0
}

/// Whether a byte of the guest lies in its memory.
pub open spec fn memory_has_byte(mem: GuestMemoryMmap<()>, addr: int) -> bool {
    exists|i: int|
        0 <= i < memory_regions(mem).len() && range_holds(
            #[trigger] memory_regions(mem)[i],
            addr,
            1,
        )
}

/// Whether `len` bytes from an address of the guest on lie in its memory, be it in one region or in
/// several that follow each other.
pub open spec fn memory_has_range(mem: GuestMemoryMmap<()>, addr: u64, len: nat) -> bool {
    forall|byte: int| addr <= byte < addr + len ==> #[trigger] memory_has_byte(mem, byte)
}

/// Where some regions are in the guest.
pub open spec fn region_ranges(regions: Seq<GuestRegionMmap<()>>) -> Seq<GuestRange> {
    regions.map_values(|region: GuestRegionMmap<()>| region_range(region))
}

/// Whether ranges are in the order of their addresses, and none reaches into another.
pub open spec fn ranges_apart(ranges: Seq<GuestRange>) -> bool {
    forall|i: int, j: int|
        0 <= i < j < ranges.len() ==> (#[trigger] ranges[i]).start + ranges[i].len <= (
        #[trigger] ranges[j]).start
}

/// The ranges with one more, which goes behind those that do not start after it.
pub open spec fn with_range(ranges: Seq<GuestRange>, range: GuestRange) -> Seq<GuestRange>
    decreases ranges.len(),
{
    if ranges.len() == 0 || ranges.last().start <= range.start {
        ranges.push(range)
    } else {
        with_range(ranges.drop_last(), range).push(ranges.last())
    }
}

/// The ranges but for those that start at the given address, in their order.
pub open spec fn without_range(ranges: Seq<GuestRange>, start: u64) -> Seq<GuestRange>
    decreases ranges.len(),
{
    if ranges.len() == 0 {
        seq![]
    } else {
        let before = without_range(ranges.drop_last(), start);
        if ranges.last().start != start {
            before.push(ranges.last())
        } else {
            before
        }
    }
}

/// Ranges of which none starts at the given address stay the same when those that do are taken out.
proof fn lemma_without_absent_range(ranges: Seq<GuestRange>, start: u64)
    requires
        forall|i: int| 0 <= i < ranges.len() ==> (#[trigger] ranges[i]).start != start,
    ensures
        without_range(ranges, start) == ranges,
    decreases ranges.len(),
{
    if ranges.len() > 0 {
        assert(ranges.last() == ranges[ranges.len() - 1]);
        lemma_without_absent_range(ranges.drop_last(), start);
        assert(ranges.drop_last().push(ranges.last()) =~= ranges);
    }
}

/// A range that was put among others is one of them, and taking it out again leaves the others as
/// they were, unless one of them starts at the same address.
pub proof fn lemma_without_undoes_with(ranges: Seq<GuestRange>, range: GuestRange)
    requires
        forall|i: int| 0 <= i < ranges.len() ==> (#[trigger] ranges[i]).start != range.start,
    ensures
        with_range(ranges, range).contains(range),
        without_range(with_range(ranges, range), range.start) == ranges,
    decreases ranges.len(),
{
    let all = with_range(ranges, range);
    if ranges.len() == 0 || ranges.last().start <= range.start {
        assert(all[ranges.len() as int] == range);
        assert(all.drop_last() =~= ranges);
        lemma_without_absent_range(ranges, range.start);
    } else {
        let shorter = ranges.drop_last();
        lemma_without_undoes_with(shorter, range);
        let i = choose|i: int|
            0 <= i < with_range(shorter, range).len() && with_range(shorter, range)[i] == range;
        assert(all[i] == range);
        assert(all.drop_last() =~= with_range(shorter, range));
        assert(ranges.last() == ranges[ranges.len() - 1]);
        assert(shorter.push(ranges.last()) =~= ranges);
    }
}

/// A range is among others to which one was added exactly if it is that one or was among them.
pub proof fn lemma_with_range_contains(ranges: Seq<GuestRange>, range: GuestRange, r: GuestRange)
    ensures
        with_range(ranges, range).contains(r) <==> ranges.contains(r) || r == range,
    decreases ranges.len(),
{
    let all = with_range(ranges, range);
    if ranges.len() == 0 || ranges.last().start <= range.start {
        assert(all[ranges.len() as int] == range);
        if ranges.contains(r) {
            let i = choose|i: int| 0 <= i < ranges.len() && ranges[i] == r;
            assert(all[i] == r);
        }
    } else {
        let shorter = ranges.drop_last();
        let before = with_range(shorter, range);
        lemma_with_range_contains(shorter, range, r);
        lemma_push_contains(shorter, ranges.last(), r);
        lemma_push_contains(before, ranges.last(), r);
        assert(shorter.push(ranges.last()) =~= ranges);
    }
}

/// A range is left when those that start at an address were taken out exactly if it was there and
/// does not start at that address.
pub proof fn lemma_without_range_contains(ranges: Seq<GuestRange>, start: u64, r: GuestRange)
    ensures
        without_range(ranges, start).contains(r) <==> ranges.contains(r) && r.start != start,
    decreases ranges.len(),
{
    if ranges.len() > 0 {
        let shorter = ranges.drop_last();
        lemma_without_range_contains(shorter, start, r);
        lemma_push_contains(shorter, ranges.last(), r);
        lemma_push_contains(without_range(shorter, start), ranges.last(), r);
        assert(shorter.push(ranges.last()) =~= ranges);
    }
}

/// What is in a sequence that was added to.
pub(crate) proof fn lemma_push_contains<A>(all: Seq<A>, last: A, a: A)
    ensures
        all.push(last).contains(a) <==> all.contains(a) || a == last,
{
    let more = all.push(last);
    assert(more[all.len() as int] == last);
    if all.contains(a) {
        let i = choose|i: int| 0 <= i < all.len() && all[i] == a;
        assert(more[i] == a);
    }
}

/// A range that reaches into none of the others, of which none is empty, does not start where one of
/// them starts.
pub proof fn lemma_apart_start_differs(ranges: Seq<GuestRange>, range: GuestRange)
    requires
        ranges_apart(with_range(ranges, range)),
        range.len > 0,
        forall|i: int| 0 <= i < ranges.len() ==> (#[trigger] ranges[i]).len > 0,
    ensures
        forall|i: int| 0 <= i < ranges.len() ==> (#[trigger] ranges[i]).start != range.start,
    decreases ranges.len(),
{
    let all = with_range(ranges, range);
    if ranges.len() == 0 || ranges.last().start <= range.start {
        assert forall|i: int| 0 <= i < ranges.len() implies (#[trigger] ranges[i]).start
            != range.start by {
            assert(all[i] == ranges[i] && all[ranges.len() as int] == range);
        }
    } else {
        let shorter = ranges.drop_last();
        let before = with_range(shorter, range);
        assert forall|i: int, j: int| 0 <= i < j < before.len() implies (
        #[trigger] before[i]).start + before[i].len <= (#[trigger] before[j]).start by {
            assert(all[i] == before[i] && all[j] == before[j]);
        }
        lemma_apart_start_differs(shorter, range);
        assert forall|i: int| 0 <= i < ranges.len() implies (#[trigger] ranges[i]).start
            != range.start by {
            if i < shorter.len() {
                assert(shorter[i] == ranges[i]);
            }
        }
    }
}

/// [`MmapRegion::size`]: the number of bytes.
#[verifier::external_body]
pub(crate) fn mapping_len(mapping: &MmapRegion<()>) -> (len: usize)
    ensures
        len == mapping_size(*mapping),
{
    mapping.size()
}

/// [`GuestRegionMmap::new`]: makes a mapping a region of the guest. It fails exactly if the address
/// just behind the region exceeds 64 bits.
#[verifier::external_body]
pub(crate) fn region_new(mapping: MmapRegion<()>, start: u64) -> (result: Result<
    GuestRegionMmap<()>,
    vm_memory::Error,
>)
    ensures
        result is Ok <==> start + mapping_size(mapping) <= u64::MAX,
        result matches Ok(region) ==> region_range(region) == (GuestRange {
            start,
            len: mapping_size(mapping) as u64,
        }),
{
    GuestRegionMmap::new(mapping, GuestAddress(start))
}

/// [`GuestMemoryMmap::from_regions`]: makes a memory of regions. It fails exactly if there are none,
/// or if they are not in order, or if they overlap. It subtracts one from the size of a region, so
/// none may be empty.
#[verifier::external_body]
pub(crate) fn memory_from_regions(regions: Vec<GuestRegionMmap<()>>) -> (result: Result<
    GuestMemoryMmap<()>,
    vm_memory::Error,
>)
    requires
        forall|i: int| 0 <= i < regions@.len() ==> region_range(#[trigger] regions@[i]).len > 0,
    ensures
        result is Ok <==> (regions@.len() > 0 && ranges_apart(region_ranges(regions@))),
        result matches Ok(mem) ==> memory_regions(mem) == region_ranges(regions@),
{
    GuestMemoryMmap::from_regions(regions)
}

/// [`GuestMemoryMmap::insert_region`]: a memory with one more region. It fails exactly if the region
/// overlaps another one. It subtracts one from the size of a region, so the region may not be empty.
#[verifier::external_body]
pub(crate) fn memory_insert_region(
    mem: &GuestMemoryMmap<()>,
    region: GuestRegionMmap<()>,
) -> (result: Result<GuestMemoryMmap<()>, vm_memory::Error>)
    requires
        region_range(region).len > 0,
    ensures
        result is Ok <==> ranges_apart(with_range(memory_regions(*mem), region_range(region))),
        result matches Ok(new) ==> memory_regions(new) == with_range(
            memory_regions(*mem),
            region_range(region),
        ),
{
    mem.insert_region(Arc::new(region))
}

/// [`GuestMemoryMmap::remove_region`]: a memory without a region. It fails exactly if the memory has
/// no region with that address and that size.
#[verifier::external_body]
pub(crate) fn memory_remove_region(mem: &GuestMemoryMmap<()>, start: u64, len: u64) -> (result:
    Result<GuestMemoryMmap<()>, vm_memory::Error>)
    ensures
        result is Ok <==> memory_regions(*mem).contains((GuestRange { start, len })),
        result matches Ok(new) ==> memory_regions(new) == without_range(
            memory_regions(*mem),
            start,
        ),
{
    mem.remove_region(GuestAddress(start), len).map(|(new, _)| new)
}

/// [`GuestMemory::get_slice`] on [`GuestMemoryMmap`]: succeeds exactly if one region of the memory has
/// all of the bytes.
#[verifier::external_body]
pub(crate) fn memory_has_slice(mem: &GuestMemoryMmap<()>, addr: u64, len: usize) -> (holds: bool)
    ensures
        holds == memory_holds(*mem, addr, len),
{
    mem.get_slice(GuestAddress(addr), len).is_ok()
}

} // verus!
