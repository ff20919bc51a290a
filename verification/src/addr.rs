//! Physical and virtual addresses.

use vstd::prelude::*;
use vstd::std_specs::convert::FromSpecImpl;
use vstd::std_specs::ops::{AddSpecImpl, SubSpecImpl};
use crate::memory_addr::{
    align_down, align_offset, align_up, aligned_down, aligned_up, is_aligned, is_power_of_two,
    lemma_page_size_is_power_of_two, PAGE_SIZE_4K,
};

verus! {

/// A physical memory address.
#[derive(Copy, Clone, Debug, Default, PartialOrd, Ord, PartialEq, Eq, Structural)]
pub struct PhysAddr(pub usize);

impl PhysAddr {
    /// Converts an `usize` to a physical address.
    pub fn from(addr: usize) -> (pa: Self)
        ensures
            pa == PhysAddr(addr),
    {
        Self(addr)
    }

    /// Converts the address to an `usize`.
    pub fn as_usize(self) -> (addr: usize)
        ensures
            addr == self.0,
    {
        self.0
    }

    /// Aligns the address downwards to the given alignment, a power of
    /// two.
    pub fn align_down(self, align: usize) -> (pa: Self)
        requires
            is_power_of_two(align),
        ensures
            pa.0 == aligned_down(self.0, align),
    {
        Self(align_down(self.0, align))
    }

    /// Aligns the address upwards to the given alignment, a power of two.
    /// The result must be an address.
    pub fn align_up(self, align: usize) -> (pa: Self)
        requires
            is_power_of_two(align),
            self.0 + align - 1 <= usize::MAX,
        ensures
            pa.0 == aligned_up(self.0, align),
    {
        Self(align_up(self.0, align))
    }

    /// Returns the offset of the address within the given alignment, a
    /// power of two.
    pub fn align_offset(self, align: usize) -> (offset: usize)
        requires
            is_power_of_two(align),
        ensures
            offset == self.0 % align,
    {
        align_offset(self.0, align)
    }

    /// Checks whether the address has the demanded alignment, a power of
    /// two.
    pub fn is_aligned(self, align: usize) -> (aligned: bool)
        requires
            is_power_of_two(align),
        ensures
            aligned == (self.0 % align == 0),
    {
        is_aligned(self.0, align)
    }

    /// Aligns the address downwards to 4096 (bytes).
    pub fn align_down_4k(self) -> (pa: Self)
        ensures
            pa.0 == aligned_down(self.0, PAGE_SIZE_4K),
    {
        proof {
            lemma_page_size_is_power_of_two();
        }
        self.align_down(PAGE_SIZE_4K)
    }

    /// Aligns the address upwards to 4096 (bytes). The result must be an
    /// address.
    pub fn align_up_4k(self) -> (pa: Self)
        requires
            self.0 + PAGE_SIZE_4K - 1 <= usize::MAX,
        ensures
            pa.0 == aligned_up(self.0, PAGE_SIZE_4K),
    {
        proof {
            lemma_page_size_is_power_of_two();
        }
        self.align_up(PAGE_SIZE_4K)
    }

    /// Returns the offset of the address within a 4K-sized page.
    pub fn align_offset_4k(self) -> (offset: usize)
        ensures
            offset == self.0 % PAGE_SIZE_4K,
    {
        proof {
            lemma_page_size_is_power_of_two();
        }
        self.align_offset(PAGE_SIZE_4K)
    }

    /// Checks whether the address is 4K-aligned.
    pub fn is_aligned_4k(self) -> (aligned: bool)
        ensures
            aligned == (self.0 % PAGE_SIZE_4K == 0),
    {
        proof {
            lemma_page_size_is_power_of_two();
        }
        self.is_aligned(PAGE_SIZE_4K)
    }
}

impl From<usize> for PhysAddr {
    fn from(addr: usize) -> (pa: Self) {
        Self(addr)
    }
}

impl FromSpecImpl<usize> for PhysAddr {
    open spec fn obeys_from_spec() -> bool {
        true
    }

    open spec fn from_spec(addr: usize) -> Self {
        PhysAddr(addr)
    }
}

impl From<PhysAddr> for usize {
    fn from(addr: PhysAddr) -> (value: usize) {
        addr.0
    }
}

impl FromSpecImpl<PhysAddr> for usize {
    open spec fn obeys_from_spec() -> bool {
        true
    }

    open spec fn from_spec(addr: PhysAddr) -> usize {
        addr.0
    }
}

impl core::ops::Add<usize> for PhysAddr {
    type Output = Self;

    fn add(self, rhs: usize) -> (sum: Self) {
        Self(self.0 + rhs)
    }
}

impl AddSpecImpl<usize> for PhysAddr {
    open spec fn obeys_add_spec() -> bool {
        true
    }

    open spec fn add_req(self, rhs: usize) -> bool {
        self.0 + rhs <= usize::MAX
    }

    open spec fn add_spec(self, rhs: usize) -> Self {
        PhysAddr((self.0 + rhs) as usize)
    }
}

impl core::ops::Sub<usize> for PhysAddr {
    type Output = Self;

    fn sub(self, rhs: usize) -> (difference: Self) {
        Self(self.0 - rhs)
    }
}

impl SubSpecImpl<usize> for PhysAddr {
    open spec fn obeys_sub_spec() -> bool {
        true
    }

    open spec fn sub_req(self, rhs: usize) -> bool {
        self.0 >= rhs
    }

    open spec fn sub_spec(self, rhs: usize) -> Self {
        PhysAddr((self.0 - rhs) as usize)
    }
}

/// A virtual memory address.
#[derive(Copy, Clone, Debug, Default, PartialOrd, Ord, PartialEq, Eq, Structural)]
pub struct VirtAddr(pub usize);

impl VirtAddr {
    /// Converts an `usize` to a virtual address.
    pub fn from(addr: usize) -> (va: Self)
        ensures
            va == VirtAddr(addr),
    {
        Self(addr)
    }

    /// Converts the address to an `usize`.
    pub fn as_usize(self) -> (addr: usize)
        ensures
            addr == self.0,
    {
        self.0
    }

    /// Aligns the address downwards to the given alignment, a power of
    /// two.
    pub fn align_down(self, align: usize) -> (va: Self)
        requires
            is_power_of_two(align),
        ensures
            va.0 == aligned_down(self.0, align),
    {
        Self(align_down(self.0, align))
    }

    /// Aligns the address upwards to the given alignment, a power of two.
    /// The result must be an address.
    pub fn align_up(self, align: usize) -> (va: Self)
        requires
            is_power_of_two(align),
            self.0 + align - 1 <= usize::MAX,
        ensures
            va.0 == aligned_up(self.0, align),
    {
        Self(align_up(self.0, align))
    }

    /// Returns the offset of the address within the given alignment, a
    /// power of two.
    pub fn align_offset(self, align: usize) -> (offset: usize)
        requires
            is_power_of_two(align),
        ensures
            offset == self.0 % align,
    {
        align_offset(self.0, align)
    }

    /// Checks whether the address has the demanded alignment, a power of
    /// two.
    pub fn is_aligned(self, align: usize) -> (aligned: bool)
        requires
            is_power_of_two(align),
        ensures
            aligned == (self.0 % align == 0),
    {
        is_aligned(self.0, align)
    }

    /// Aligns the address downwards to 4096 (bytes).
    pub fn align_down_4k(self) -> (va: Self)
        ensures
            va.0 == aligned_down(self.0, PAGE_SIZE_4K),
    {
        proof {
            lemma_page_size_is_power_of_two();
        }
        self.align_down(PAGE_SIZE_4K)
    }

    /// Aligns the address upwards to 4096 (bytes). The result must be an
    /// address.
    pub fn align_up_4k(self) -> (va: Self)
        requires
            self.0 + PAGE_SIZE_4K - 1 <= usize::MAX,
        ensures
            va.0 == aligned_up(self.0, PAGE_SIZE_4K),
    {
        proof {
            lemma_page_size_is_power_of_two();
        }
        self.align_up(PAGE_SIZE_4K)
    }

    /// Returns the offset of the address within a 4K-sized page.
    pub fn align_offset_4k(self) -> (offset: usize)
        ensures
            offset == self.0 % PAGE_SIZE_4K,
    {
        proof {
            lemma_page_size_is_power_of_two();
        }
        self.align_offset(PAGE_SIZE_4K)
    }

    /// Checks whether the address is 4K-aligned.
    pub fn is_aligned_4k(self) -> (aligned: bool)
        ensures
            aligned == (self.0 % PAGE_SIZE_4K == 0),
    {
        proof {
            lemma_page_size_is_power_of_two();
        }
        self.is_aligned(PAGE_SIZE_4K)
    }
}

impl From<usize> for VirtAddr {
    fn from(addr: usize) -> (va: Self) {
        Self(addr)
    }
}

impl FromSpecImpl<usize> for VirtAddr {
    open spec fn obeys_from_spec() -> bool {
        true
    }

    open spec fn from_spec(addr: usize) -> Self {
        VirtAddr(addr)
    }
}

impl From<VirtAddr> for usize {
    fn from(addr: VirtAddr) -> (value: usize) {
        addr.0
    }
}

impl FromSpecImpl<VirtAddr> for usize {
    open spec fn obeys_from_spec() -> bool {
        true
    }

    open spec fn from_spec(addr: VirtAddr) -> usize {
        addr.0
    }
}

impl core::ops::Add<usize> for VirtAddr {
    type Output = Self;

    fn add(self, rhs: usize) -> (sum: Self) {
        Self(self.0 + rhs)
    }
}

impl AddSpecImpl<usize> for VirtAddr {
    open spec fn obeys_add_spec() -> bool {
        true
    }

    open spec fn add_req(self, rhs: usize) -> bool {
        self.0 + rhs <= usize::MAX
    }

    open spec fn add_spec(self, rhs: usize) -> Self {
        VirtAddr((self.0 + rhs) as usize)
    }
}

impl core::ops::Sub<usize> for VirtAddr {
    type Output = Self;

    fn sub(self, rhs: usize) -> (difference: Self) {
        Self(self.0 - rhs)
    }
}

impl SubSpecImpl<usize> for VirtAddr {
    open spec fn obeys_sub_spec() -> bool {
        true
    }

    open spec fn sub_req(self, rhs: usize) -> bool {
        self.0 >= rhs
    }

    open spec fn sub_spec(self, rhs: usize) -> Self {
        VirtAddr((self.0 - rhs) as usize)
    }
}

} // verus!
