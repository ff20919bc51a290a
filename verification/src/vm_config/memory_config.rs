//! The memory of a guest.

use vstd::prelude::*;

verus! {

/// The number of memory regions that a guest can have.
pub const MAX_VM_MEMORY_REGION: usize = 16;

/// A region of a guest's memory.
#[derive(Clone, Copy, Debug, Eq)]
pub struct VmMemoryRegion {
    /// Where the region starts in the guest's physical address space.
    pub ipa_start: usize,
    /// Where the region starts in the host's physical address space.
    pub pa_start: usize,
    /// The length of the region.
    pub length: usize,
    /// The access that the guest has to the region.
    pub flags: usize,
}

impl VmMemoryRegion {
    /// The empty region at address 0.
    pub fn default() -> (region: VmMemoryRegion)
        ensures
            region == (VmMemoryRegion { ipa_start: 0, pa_start: 0, length: 0, flags: 0 }),
    {
        VmMemoryRegion { ipa_start: 0, pa_start: 0, length: 0, flags: 0 }
    }

    /// The region with the given values.
    pub fn new(ipa_start: usize, pa_start: usize, length: usize, flags: usize) -> (region:
        VmMemoryRegion)
        ensures
            region == (VmMemoryRegion { ipa_start, pa_start, length, flags }),
    {
        VmMemoryRegion { ipa_start, pa_start, length, flags }
    }
}

impl PartialEq for VmMemoryRegion {
    fn eq(&self, other: &Self) -> (equal: bool) {
        self.ipa_start == other.ipa_start && self.pa_start == other.pa_start && self.length
            == other.length && self.flags == other.flags
    }
}

impl vstd::std_specs::cmp::PartialEqSpecImpl for VmMemoryRegion {
    open spec fn obeys_eq_spec() -> bool {
        true
    }

    open spec fn eq_spec(&self, other: &Self) -> bool {
        self.ipa_start == other.ipa_start && self.pa_start == other.pa_start && self.length
            == other.length && self.flags == other.flags
    }
}

/// What a list of memory regions holds, in order.
pub uninterp spec fn memory_regions(list: heapless::Vec<VmMemoryRegion, MAX_VM_MEMORY_REGION>) -> Seq<
    VmMemoryRegion,
>;

/// `heapless::Vec::new` for a list of memory regions: the list is empty.
#[verifier::external_body]
pub(crate) fn memory_regions_new() -> (list: heapless::Vec<VmMemoryRegion, MAX_VM_MEMORY_REGION>)
    ensures
        memory_regions(list) == Seq::<VmMemoryRegion>::empty(),
{
    heapless::Vec::new()
}

/// `heapless::Vec::push` on a list of memory regions: a list that is not
/// full takes the region at its end; a full list stays as it is and hands
/// the region back.
#[verifier::external_body]
pub(crate) fn memory_regions_push(
    list: &mut heapless::Vec<VmMemoryRegion, MAX_VM_MEMORY_REGION>,
    region: VmMemoryRegion,
) -> (result: Result<(), VmMemoryRegion>)
    ensures
        match result {
            Ok(_) => memory_regions(*old(list)).len() < MAX_VM_MEMORY_REGION && memory_regions(
                *final(list),
            ) == memory_regions(*old(list)).push(region),
            Err(back) => memory_regions(*old(list)).len() >= MAX_VM_MEMORY_REGION && back == region
                && memory_regions(*final(list)) == memory_regions(*old(list)),
        },
{
    list.push(region)
}

/// The memory of a guest.
#[derive(Clone, Debug)]
pub struct VmMemoryConfig {
    /// The regions, in the order in which they were added.
    pub regions: heapless::Vec<VmMemoryRegion, MAX_VM_MEMORY_REGION>,
}

impl VmMemoryConfig {
    /// The regions, in order.
    pub open spec fn region_list(&self) -> Seq<VmMemoryRegion> {
        memory_regions(self.regions)
    }

    /// A memory without regions.
    pub fn default() -> (config: VmMemoryConfig)
        ensures
            config.region_list() == Seq::<VmMemoryRegion>::empty(),
    {
        VmMemoryConfig { regions: memory_regions_new() }
    }

    /// Adds `region` behind the regions that are there. A memory that
    /// holds `MAX_VM_MEMORY_REGION` regions is full: it stays as it is and
    /// hands the region back.
    pub fn add_memory_region(&mut self, region: VmMemoryRegion) -> (result: Result<
        (),
        VmMemoryRegion,
    >)
        ensures
            match result {
                Ok(_) => old(self).region_list().len() < MAX_VM_MEMORY_REGION && final(self).region_list() == old(self).region_list().push(region),
                Err(back) => old(self).region_list().len() >= MAX_VM_MEMORY_REGION && back
                    == region && final(self).region_list() == old(self).region_list(),
            },
    {
        memory_regions_push(&mut self.regions, region)
    }
}

} // verus!
