//! Ranges of addresses.

use vstd::prelude::*;
use vstd::std_specs::convert::FromSpecImpl;
use core::ops::Range;
use crate::addr::{PhysAddr, VirtAddr};

verus! {

/// An address type that a range can be made of.
pub trait MemoryAddr: Copy + Sized {
    /// The address as a number.
    spec fn value(self) -> usize;

    /// The address with the given number.
    spec fn with_value(value: usize) -> Self;

    /// An address is the address with its number.
    proof fn lemma_value(self)
        ensures
            Self::with_value(self.value()) == self,
    ;

    /// The address as a number.
    fn to_usize(self) -> (value: usize)
        ensures
            value == self.value(),
    ;

    /// The address with the given number.
    fn of_usize(value: usize) -> (addr: Self)
        ensures
            addr == Self::with_value(value),
            addr.value() == value,
    ;
}

impl MemoryAddr for VirtAddr {
    open spec fn value(self) -> usize {
        self.0
    }

    open spec fn with_value(value: usize) -> Self {
        VirtAddr(value)
    }

    proof fn lemma_value(self) {
    }

    fn to_usize(self) -> (value: usize) {
        self.0
    }

    fn of_usize(value: usize) -> (addr: Self) {
        VirtAddr(value)
    }
}

impl MemoryAddr for PhysAddr {
    open spec fn value(self) -> usize {
        self.0
    }

    open spec fn with_value(value: usize) -> Self {
        PhysAddr(value)
    }

    proof fn lemma_value(self) {
    }

    fn to_usize(self) -> (value: usize) {
        self.0
    }

    fn of_usize(value: usize) -> (addr: Self) {
        PhysAddr(value)
    }
}

/// A range of addresses: from `start` up to, but not including, `end`.
#[derive(Clone, Copy, Debug)]
pub struct AddrRange<A: MemoryAddr> {
    /// The lower bound of the range (inclusive).
    pub start: A,
    /// The upper bound of the range (exclusive).
    pub end: A,
}

/// A range of virtual addresses.
pub type VirtAddrRange = AddrRange<VirtAddr>;

/// A range of physical addresses.
pub type PhysAddrRange = AddrRange<PhysAddr>;

impl<A: MemoryAddr> AddrRange<A> {
    /// Whether the range holds the address with number `value`.
    pub open spec fn holds(self, value: int) -> bool {
        self.start.value() <= value < self.end.value()
    }

    /// Creates a new address range.
    pub fn new(start: A, end: A) -> (range: Self)
        ensures
            range.start == start,
            range.end == end,
    {
        Self { start, end }
    }

    /// Creates a new address range from the start address and the size.
    /// The end of the range must be an address.
    pub fn from_start_size(start: A, size: usize) -> (range: Self)
        requires
            start.value() + size <= usize::MAX,
        ensures
            range.start == start,
            range.end == A::with_value((start.value() + size) as usize),
            range.end.value() == start.value() + size,
    {
        Self { start, end: A::of_usize(start.to_usize() + size) }
    }

    /// Returns `true` if the range is empty (`start >= end`).
    pub fn is_empty(self) -> (empty: bool)
        ensures
            empty == (self.start.value() >= self.end.value()),
            empty == forall|value: int| !self.holds(value),
    {
        let empty = self.start.to_usize() >= self.end.to_usize();
        proof {
            if !empty {
                assert(self.holds(self.start.value() as int));
            }
        }
        empty
    }

    /// Returns the size of the range; 0 if the range is empty.
    pub fn size(self) -> (size: usize)
        ensures
            size == if self.start.value() <= self.end.value() {
                self.end.value() - self.start.value()
            } else {
                0
            },
    {
        let start = self.start.to_usize();
        let end = self.end.to_usize();
        if start <= end {
            end - start
        } else {
            0
        }
    }

    /// Checks if the range contains the given address.
    pub fn contains(self, addr: A) -> (inside: bool)
        ensures
            inside == self.holds(addr.value() as int),
    {
        self.start.to_usize() <= addr.to_usize() && addr.to_usize() < self.end.to_usize()
    }

    /// Checks if the range contains the given address range.
    pub fn contains_range(self, other: Self) -> (inside: bool)
        ensures
            inside == (self.start.value() <= other.start.value() && other.end.value()
                <= self.end.value()),
            inside ==> forall|value: int| other.holds(value) ==> self.holds(value),
    {
        self.start.to_usize() <= other.start.to_usize() && other.end.to_usize()
            <= self.end.to_usize()
    }

    /// Checks if the range is contained in the given address range.
    pub fn contained_in(self, other: Self) -> (inside: bool)
        ensures
            inside == (other.start.value() <= self.start.value() && self.end.value()
                <= other.end.value()),
            inside ==> forall|value: int| self.holds(value) ==> other.holds(value),
    {
        other.contains_range(self)
    }

    /// Checks if the range overlaps with the given address range.
    pub fn overlaps(self, other: Self) -> (meet: bool)
        ensures
            meet == (self.start.value() < other.end.value() && other.start.value()
                < self.end.value()),
            !meet ==> forall|value: int| !(self.holds(value) && other.holds(value)),
    {
        self.start.to_usize() < other.end.to_usize() && other.start.to_usize()
            < self.end.to_usize()
    }
}

/// Two ranges that are not empty overlap exactly if they have an address
/// in common.
pub proof fn lemma_overlap_is_common_address<A: MemoryAddr>(a: AddrRange<A>, b: AddrRange<A>)
    requires
        a.start.value() < a.end.value(),
        b.start.value() < b.end.value(),
    ensures
        (a.start.value() < b.end.value() && b.start.value() < a.end.value()) <==> exists|
            value: int,
        |
            a.holds(value) && b.holds(value),
{
    if a.start.value() < b.end.value() && b.start.value() < a.end.value() {
        let value = if a.start.value() >= b.start.value() {
            a.start.value() as int
        } else {
            b.start.value() as int
        };
        assert(a.holds(value) && b.holds(value));
    }
}

impl From<Range<VirtAddr>> for AddrRange<VirtAddr> {
    fn from(range: Range<VirtAddr>) -> (out: Self) {
        Self { start: range.start, end: range.end }
    }
}

impl FromSpecImpl<Range<VirtAddr>> for AddrRange<VirtAddr> {
    open spec fn obeys_from_spec() -> bool {
        true
    }

    open spec fn from_spec(range: Range<VirtAddr>) -> Self {
        AddrRange { start: range.start, end: range.end }
    }
}

impl From<Range<usize>> for AddrRange<VirtAddr> {
    fn from(range: Range<usize>) -> (out: Self) {
        Self { start: VirtAddr(range.start), end: VirtAddr(range.end) }
    }
}

impl FromSpecImpl<Range<usize>> for AddrRange<VirtAddr> {
    open spec fn obeys_from_spec() -> bool {
        true
    }

    open spec fn from_spec(range: Range<usize>) -> Self {
        AddrRange { start: VirtAddr(range.start), end: VirtAddr(range.end) }
    }
}

impl From<Range<PhysAddr>> for AddrRange<PhysAddr> {
    fn from(range: Range<PhysAddr>) -> (out: Self) {
        Self { start: range.start, end: range.end }
    }
}

impl FromSpecImpl<Range<PhysAddr>> for AddrRange<PhysAddr> {
    open spec fn obeys_from_spec() -> bool {
        true
    }

    open spec fn from_spec(range: Range<PhysAddr>) -> Self {
        AddrRange { start: range.start, end: range.end }
    }
}

impl From<Range<usize>> for AddrRange<PhysAddr> {
    fn from(range: Range<usize>) -> (out: Self) {
        Self { start: PhysAddr(range.start), end: PhysAddr(range.end) }
    }
}

impl FromSpecImpl<Range<usize>> for AddrRange<PhysAddr> {
    open spec fn obeys_from_spec() -> bool {
        true
    }

    open spec fn from_spec(range: Range<usize>) -> Self {
        AddrRange { start: PhysAddr(range.start), end: PhysAddr(range.end) }
    }
}

} // verus!
