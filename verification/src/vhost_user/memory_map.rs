//! The memory of the guest, as the front-end shares it.

use crate::virtio::guest_memory::{mapping_len, GuestRange};
use vm_memory::MmapRegion;
use vstd::prelude::*;

verus! {

/// A region of guest memory that the front-end shares.
#[derive(Debug, Clone, Copy, PartialEq, Eq, Structural)]
pub struct MemoryRegion {
    /// Where the region is in the guest.
    pub guest_phys_addr: u64,
    /// How many bytes it has.
    pub memory_size: u64,
    /// Where the region is in the front-end.
    pub user_addr: u64,
}

impl MemoryRegion {
    /// Where the region is in the guest.
    pub open spec fn range(&self) -> GuestRange {
        GuestRange { start: self.guest_phys_addr, len: self.memory_size }
    }

    /// Whether no address of the front-end inside the region, or just behind it, exceeds 64 bits.
    pub open spec fn fits_front_end(&self) -> bool {
        self.user_addr + self.memory_size <= u64::MAX
    }

    /// Whether no address of the guest inside the region, or just behind it, exceeds 64 bits.
    pub open spec fn fits_guest(&self) -> bool {
        self.guest_phys_addr + self.memory_size <= u64::MAX
    }
}

/// A region of guest memory that was mapped.
pub struct MappedRegion {
    /// The region.
    pub region: MemoryRegion,
    /// The mapping.
    pub mapping: MmapRegion<()>,
    /// Where the mapping is in the back-end.
    pub local_addr: u64,
}

impl MappedRegion {
    /// Whether the mapping has the size of the region, and the region is not empty and has a place in
    /// the front-end.
    pub open spec fn fits(&self) -> bool {
        &&& crate::virtio::guest_memory::mapping_size(self.mapping) == self.region.memory_size
        &&& self.region.memory_size > 0
        &&& self.region.fits_front_end()
    }

    /// A region with its mapping, or `None` if the mapping has another size, or is empty, which no
    /// mapping is, or the addresses in the front-end exceed 64 bits.
    pub fn new(region: MemoryRegion, mapping: MmapRegion<()>, local_addr: u64) -> (mapped: Option<
        MappedRegion,
    >)
        ensures
            mapped is Some <==> crate::virtio::guest_memory::mapping_size(mapping)
                == region.memory_size && region.memory_size > 0 && region.fits_front_end(),
            mapped matches Some(mapped) ==> mapped == (MappedRegion { region, mapping, local_addr })
                && mapped.fits(),
    {
        if mapping_len(&mapping) as u64 == region.memory_size && region.memory_size > 0
            && region.user_addr.checked_add(
            region.memory_size,
        ).is_some() {
            Some(MappedRegion { region, mapping, local_addr })
        } else {
            None
        }
    }
}

/// Whether a region was mapped and has a place in the guest.
pub open spec fn usable<E>(mapped: Result<MappedRegion, E>) -> bool {
    mapped matches Ok(mapped) && mapped.region.fits_guest()
}

/// Whether the region at `index` is the first that is not usable.
pub open spec fn first_unusable<E>(mapped: Seq<Result<MappedRegion, E>>, index: int) -> bool {
    &&& 0 <= index < mapped.len()
    &&& !usable(mapped[index])
    &&& forall|i: int| 0 <= i < index ==> usable(#[trigger] mapped[i])
}

/// Whether all regions were mapped and have a place in the guest.
pub open spec fn all_usable<E>(mapped: Seq<Result<MappedRegion, E>>) -> bool {
    forall|i: int| 0 <= i < mapped.len() ==> usable(#[trigger] mapped[i])
}

/// Where regions that were mapped are in the guest.
pub open spec fn mapped_ranges<E>(mapped: Seq<Result<MappedRegion, E>>) -> Seq<GuestRange> {
    mapped.map_values(|mapped: Result<MappedRegion, E>| mapped->Ok_0.region.range())
}

/// Why the memory of the guest could not be changed.
#[derive(Debug)]
pub enum MemoryFault<E> {
    /// A region could not be mapped.
    Mapping(E),
    /// The guest cannot have such regions.
    Regions(vm_memory::Error),
}

/// Where a region of guest memory is for the back-end, the front-end and the guest.
#[derive(Debug, Clone, Copy, PartialEq, Eq, Structural)]
pub struct AddrMapping {
    /// Address in the back-end.
    pub local_addr: u64,
    /// Address in the front-end.
    pub vmm_addr: u64,
    /// Number of bytes.
    pub size: u64,
    /// Address in the guest.
    pub gpa_base: u64,
}

impl AddrMapping {
    /// The mapping of a region that was mapped at `local_addr`.
    pub open spec fn of_region(region: MemoryRegion, local_addr: u64) -> AddrMapping {
        AddrMapping {
            local_addr,
            vmm_addr: region.user_addr,
            size: region.memory_size,
            gpa_base: region.guest_phys_addr,
        }
    }

    /// Where the region is in the guest.
    pub open spec fn range(&self) -> GuestRange {
        GuestRange { start: self.gpa_base, len: self.size }
    }

    /// Whether the region is not empty, and no address inside it, or just behind it, exceeds 64 bits.
    pub open spec fn valid(&self) -> bool {
        &&& self.size > 0
        &&& self.vmm_addr + self.size <= u64::MAX
        &&& self.gpa_base + self.size <= u64::MAX
    }

    /// Whether an address of the front-end lies in the region.
    pub open spec fn holds(&self, vmm_va: u64) -> bool {
        self.vmm_addr <= vmm_va < self.vmm_addr + self.size
    }
}

/// The guest address for an address of the front-end: the first region that holds it decides.
pub open spec fn translated(mappings: Seq<AddrMapping>, vmm_va: u64) -> Option<int>
    decreases mappings.len(),
{
    if mappings.len() == 0 {
        None
    } else if mappings[0].holds(vmm_va) {
        Some(vmm_va - mappings[0].vmm_addr + mappings[0].gpa_base)
    } else {
        translated(mappings.skip(1), vmm_va)
    }
}

/// The mappings of regions that were mapped.
pub open spec fn region_mappings<E>(mapped: Seq<Result<MappedRegion, E>>) -> Seq<AddrMapping> {
    mapped.map_values(
        |mapped: Result<MappedRegion, E>|
            AddrMapping::of_region(mapped->Ok_0.region, mapped->Ok_0.local_addr),
    )
}

/// The mappings but for those that start at the guest address `gpa_base`, in their order.
pub open spec fn mappings_without(mappings: Seq<AddrMapping>, gpa_base: u64) -> Seq<AddrMapping>
    decreases mappings.len(),
{
    if mappings.len() == 0 {
        seq![]
    } else {
        let before = mappings_without(mappings.drop_last(), gpa_base);
        if mappings.last().gpa_base != gpa_base {
            before.push(mappings.last())
        } else {
            before
        }
    }
}

/// Whether addresses can be translated without overflow.
pub open spec fn mappings_valid(mappings: Seq<AddrMapping>) -> bool {
    forall|i: int| 0 <= i < mappings.len() ==> (#[trigger] mappings[i]).valid()
}

/// Where the regions of some mappings are in the guest.
pub open spec fn ranges_of_mappings(mappings: Seq<AddrMapping>) -> Seq<GuestRange> {
    mappings.map_values(|mapping: AddrMapping| mapping.range())
}

/// Whether each mapping has a region in the memory.
pub open spec fn mappings_have_regions(
    mappings: Seq<AddrMapping>,
    ranges: Seq<GuestRange>,
) -> bool {
    forall|range: GuestRange| #[trigger]
        ranges_of_mappings(mappings).contains(range) ==> ranges.contains(range)
}

/// Whether each region of the memory has a mapping.
pub open spec fn regions_have_mappings(
    ranges: Seq<GuestRange>,
    mappings: Seq<AddrMapping>,
) -> bool {
    forall|range: GuestRange| #[trigger]
        ranges.contains(range) ==> ranges_of_mappings(mappings).contains(range)
}

/// Whether a change of mappings and memory keeps them in step: if before each mapping had a region
/// that is so afterwards, and if each region had a mapping that is so, too.
pub open spec fn step_kept(
    mappings: Seq<AddrMapping>,
    ranges: Seq<GuestRange>,
    then_mappings: Seq<AddrMapping>,
    then_ranges: Seq<GuestRange>,
) -> bool {
    &&& mappings_have_regions(mappings, ranges) ==> mappings_have_regions(
        then_mappings,
        then_ranges,
    )
    &&& regions_have_mappings(ranges, mappings) ==> regions_have_mappings(
        then_ranges,
        then_mappings,
    )
}

/// A mapping that is added with its region keeps the mappings in step with the memory.
pub proof fn lemma_add_keeps_step(
    mappings: Seq<AddrMapping>,
    ranges: Seq<GuestRange>,
    mapping: AddrMapping,
)
    ensures
        step_kept(
            mappings,
            ranges,
            mappings.push(mapping),
            crate::virtio::guest_memory::with_range(ranges, mapping.range()),
        ),
{
    let before = ranges_of_mappings(mappings);
    let after = ranges_of_mappings(mappings.push(mapping));
    let with = crate::virtio::guest_memory::with_range(ranges, mapping.range());
    assert(after =~= before.push(mapping.range()));
    assert forall|range: GuestRange| true implies {
        &&& #[trigger] with.contains(range) <==> ranges.contains(range) || range == mapping.range()
        &&& #[trigger] after.contains(range) <==> before.contains(range) || range
            == mapping.range()
    } by {
        crate::virtio::guest_memory::lemma_with_range_contains(ranges, mapping.range(), range);
        crate::virtio::guest_memory::lemma_push_contains(before, mapping.range(), range);
    }
}

/// Mappings that are removed with their region stay in step with the memory.
pub proof fn lemma_remove_keeps_step(
    mappings: Seq<AddrMapping>,
    ranges: Seq<GuestRange>,
    gpa_base: u64,
)
    ensures
        step_kept(
            mappings,
            ranges,
            mappings_without(mappings, gpa_base),
            crate::virtio::guest_memory::without_range(ranges, gpa_base),
        ),
{
    lemma_ranges_without(mappings, gpa_base);
    let before = ranges_of_mappings(mappings);
    let after = ranges_of_mappings(mappings_without(mappings, gpa_base));
    let without = crate::virtio::guest_memory::without_range(ranges, gpa_base);
    assert forall|range: GuestRange| true implies {
        &&& #[trigger] without.contains(range) <==> ranges.contains(range) && range.start
            != gpa_base
        &&& #[trigger] after.contains(range) <==> before.contains(range) && range.start
            != gpa_base
    } by {
        crate::virtio::guest_memory::lemma_without_range_contains(ranges, gpa_base, range);
        crate::virtio::guest_memory::lemma_without_range_contains(before, gpa_base, range);
    }
}

/// Taking mappings out takes the ranges of their regions out.
proof fn lemma_ranges_without(mappings: Seq<AddrMapping>, gpa_base: u64)
    ensures
        ranges_of_mappings(mappings_without(mappings, gpa_base))
            == crate::virtio::guest_memory::without_range(ranges_of_mappings(mappings), gpa_base),
    decreases mappings.len(),
{
    if mappings.len() > 0 {
        lemma_ranges_without(mappings.drop_last(), gpa_base);
        let ranges = ranges_of_mappings(mappings);
        assert(ranges.drop_last() =~= ranges_of_mappings(mappings.drop_last()));
        let before = mappings_without(mappings.drop_last(), gpa_base);
        assert(ranges_of_mappings(before.push(mappings.last())) =~= ranges_of_mappings(before).push(
            mappings.last().range(),
        ));
    } else {
        assert(ranges_of_mappings(mappings_without(mappings, gpa_base))
            =~= crate::virtio::guest_memory::without_range(ranges_of_mappings(mappings), gpa_base));
    }
}

/// No mapping starts where a region starts that reaches into none of the memory.
pub proof fn lemma_new_region_starts_elsewhere(
    mappings: Seq<AddrMapping>,
    ranges: Seq<GuestRange>,
    region: GuestRange,
)
    requires
        mappings_have_regions(mappings, ranges),
        forall|i: int| 0 <= i < ranges.len() ==> (#[trigger] ranges[i]).len > 0,
        region.len > 0,
        crate::virtio::guest_memory::ranges_apart(
            crate::virtio::guest_memory::with_range(ranges, region),
        ),
    ensures
        forall|i: int| 0 <= i < ranges.len() ==> (#[trigger] ranges[i]).start != region.start,
        forall|i: int|
            0 <= i < mappings.len() ==> (#[trigger] mappings[i]).gpa_base != region.start,
{
    let mapped = ranges_of_mappings(mappings);
    crate::virtio::guest_memory::lemma_apart_start_differs(ranges, region);
    assert forall|i: int| 0 <= i < mappings.len() implies (#[trigger] mappings[i]).gpa_base
        != region.start by {
        assert(mapped[i] == mappings[i].range());
        assert(mapped.contains(mappings[i].range()));
        let j = choose|j: int| 0 <= j < ranges.len() && ranges[j] == mappings[i].range();
        assert(ranges[j].start != region.start);
    }
}

/// Mappings without a certain address stay the same when those with that address are taken out.
pub proof fn lemma_without_absent(mappings: Seq<AddrMapping>, gpa_base: u64)
    requires
        forall|i: int|
            0 <= i < mappings.len() ==> (#[trigger] mappings[i]).gpa_base != gpa_base,
    ensures
        mappings_without(mappings, gpa_base) == mappings,
    decreases mappings.len(),
{
    if mappings.len() > 0 {
        assert(mappings.last() == mappings[mappings.len() - 1]);
        lemma_without_absent(mappings.drop_last(), gpa_base);
        assert(mappings.drop_last().push(mappings.last()) =~= mappings);
    }
}

/// An address is translated exactly if some region holds it, and then to the same offset in one of
/// the regions that hold it, which does not exceed 64 bits.
pub proof fn lemma_translation_stays_in_region(mappings: Seq<AddrMapping>, vmm_va: u64)
    requires
        mappings_valid(mappings),
    ensures
        translated(mappings, vmm_va) is Some <==> exists|i: int|
            0 <= i < mappings.len() && (#[trigger] mappings[i]).holds(vmm_va),
        translated(mappings, vmm_va) matches Some(gpa) ==> exists|i: int|
            {
                &&& 0 <= i < mappings.len()
                &&& (#[trigger] mappings[i]).holds(vmm_va)
                &&& gpa - mappings[i].gpa_base == vmm_va - mappings[i].vmm_addr
                &&& mappings[i].gpa_base <= gpa < mappings[i].gpa_base + mappings[i].size
                &&& gpa <= u64::MAX
            },
    decreases mappings.len(),
{
    if mappings.len() > 0 {
        assert(mappings[0].valid());
        if !mappings[0].holds(vmm_va) {
            let rest = mappings.skip(1);
            assert forall|i: int| 0 <= i < rest.len() implies (#[trigger] rest[i]).valid() by {
                assert(mappings[i + 1].valid());
            }
            lemma_translation_stays_in_region(rest, vmm_va);
            assert forall|i: int| 0 <= i < rest.len() implies #[trigger] rest[i] == mappings[i + 1] by {}
            if exists|i: int| 0 <= i < mappings.len() && (#[trigger] mappings[i]).holds(vmm_va) {
                let i = choose|i: int|
                    0 <= i < mappings.len() && (#[trigger] mappings[i]).holds(vmm_va);
                assert(rest[i - 1].holds(vmm_va));
            }
            if translated(rest, vmm_va) is Some {
                let gpa = translated(rest, vmm_va)->0;
                let i = choose|i: int|
                    {
                        &&& 0 <= i < rest.len()
                        &&& (#[trigger] rest[i]).holds(vmm_va)
                        &&& gpa - rest[i].gpa_base == vmm_va - rest[i].vmm_addr
                        &&& rest[i].gpa_base <= gpa < rest[i].gpa_base + rest[i].size
                        &&& gpa <= u64::MAX
                    };
                assert(mappings[i + 1].holds(vmm_va));
            }
        }
    }
}

/// As long as no address is held by two regions, the region that holds an address decides its
/// translation, wherever the region is in the table.
pub proof fn lemma_translation_of_region(mappings: Seq<AddrMapping>, index: int, vmm_va: u64)
    requires
        0 <= index < mappings.len(),
        mappings[index].holds(vmm_va),
        forall|i: int|
            0 <= i < mappings.len() && i != index ==> !(#[trigger] mappings[i]).holds(vmm_va),
    ensures
        translated(mappings, vmm_va) == Some(
            vmm_va - mappings[index].vmm_addr + mappings[index].gpa_base,
        ),
    decreases mappings.len(),
{
    if index > 0 {
        assert(!mappings[0].holds(vmm_va));
        let rest = mappings.skip(1);
        assert(rest[index - 1] == mappings[index]);
        assert forall|i: int| 0 <= i < rest.len() && i != index - 1 implies !(
        #[trigger] rest[i]).holds(vmm_va) by {
            assert(!mappings[i + 1].holds(vmm_va));
        }
        lemma_translation_of_region(rest, index - 1, vmm_va);
    }
}

} // verus!
