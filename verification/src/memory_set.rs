//! Memory mappings: areas of virtual addresses, each mapped by a backend
//! with its flags, kept in order and apart from one another.

use vstd::prelude::*;
use core::marker::PhantomData;
use crate::addr::VirtAddr;
use crate::range::{AddrRange, VirtAddrRange};

verus! {

/// Error type for memory mapping operations.
#[derive(Debug, Eq, PartialEq, Structural)]
pub enum MappingError {
    /// Invalid parameter (e.g., `addr`, `size`, `flags`, etc.)
    InvalidParam,
    /// The given range clashes with an existing.
    AlreadyExists,
    /// The backend page table is in a bad state.
    BadState,
}

/// A [`Result`] type with [`MappingError`] as the error type.
pub type MappingResult<T = ()> = Result<T, MappingError>;

/// What maps and unmaps the pages of an area in a page table of type `P`,
/// with flags of type `F`.
///
/// Each method says by its result whether it succeeded. What it does to
/// the page table is the backend's own affair: each backend states it as a
/// relation between the page table before the call, the page table after
/// it, and the result. The two functions that state it are never run; a
/// backend whose code is not verified may give them any body.
pub trait MappingBackend<F: Copy, P>: Clone {
    /// Whether mapping `size` bytes from `start` on with `flags` may turn
    /// the page table `before` into `after` and return `done`.
    spec fn maps(
        &self,
        start: VirtAddr,
        size: usize,
        flags: F,
        before: &P,
        after: &P,
        done: bool,
    ) -> bool;

    /// Whether unmapping `size` bytes from `start` on may turn the page
    /// table `before` into `after` and return `done`.
    spec fn unmaps(&self, start: VirtAddr, size: usize, before: &P, after: &P, done: bool) -> bool;

    /// Maps `size` bytes from `start` on with `flags`.
    fn map(&self, start: VirtAddr, size: usize, flags: F, page_table: &mut P) -> (done: bool)
        ensures
            self.maps(start, size, flags, old(page_table), final(page_table), done),
    ;

    /// Unmaps `size` bytes from `start` on.
    fn unmap(&self, start: VirtAddr, size: usize, page_table: &mut P) -> (done: bool)
        ensures
            self.unmaps(start, size, old(page_table), final(page_table), done),
    ;
}

/// An area as the set sees it: the addresses from `start` up to, but not
/// including, `end`, and the flags they are mapped with.
pub struct AreaView<F> {
    /// The first address of the area.
    pub start: usize,
    /// The address behind the last one of the area.
    pub end: usize,
    /// The flags of the mapping.
    pub flags: F,
}

/// A memory area: a range of virtual addresses that one backend maps with
/// the same flags.
pub struct MemoryArea<F: Copy, P, B: MappingBackend<F, P>> {
    va_range: VirtAddrRange,
    flags: F,
    backend: B,
    _phantom: PhantomData<(F, P)>,
}

impl<F: Copy, P, B: MappingBackend<F, P>> View for MemoryArea<F, P, B> {
    type V = AreaView<F>;

    closed spec fn view(&self) -> AreaView<F> {
        AreaView { start: self.va_range.start.0, end: self.va_range.end.0, flags: self.flags }
    }
}

impl<F: Copy, P, B: MappingBackend<F, P>> MemoryArea<F, P, B> {
    /// The backend of the area.
    pub closed spec fn spec_backend(&self) -> B {
        self.backend
    }

    /// Creates a new memory area of `size` bytes from `start` on. The end
    /// of the area must be an address.
    pub fn new(start: VirtAddr, size: usize, flags: F, backend: B) -> (area: Self)
        requires
            start.0 + size <= usize::MAX,
        ensures
            area@ == (AreaView { start: start.0, end: (start.0 + size) as usize, flags }),
            area.spec_backend() == backend,
    {
        Self {
            va_range: AddrRange::from_start_size(start, size),
            flags,
            backend,
            _phantom: PhantomData,
        }
    }

    /// Returns the virtual address range.
    pub fn va_range(&self) -> (range: VirtAddrRange)
        ensures
            range.start.0 == self@.start,
            range.end.0 == self@.end,
    {
        self.va_range
    }

    /// Returns the memory flags.
    pub fn flags(&self) -> (flags: F)
        ensures
            flags == self@.flags,
    {
        self.flags
    }

    /// Returns the start address of the memory area.
    pub fn start(&self) -> (start: VirtAddr)
        ensures
            start.0 == self@.start,
    {
        self.va_range.start
    }

    /// Returns the end address of the memory area.
    pub fn end(&self) -> (end: VirtAddr)
        ensures
            end.0 == self@.end,
    {
        self.va_range.end
    }

    /// Returns the size of the memory area; 0 if its end lies before its
    /// start.
    pub fn size(&self) -> (size: usize)
        ensures
            size == if self@.start <= self@.end {
                self@.end - self@.start
            } else {
                0
            },
    {
        self.va_range.size()
    }

    /// Returns the mapping backend of the memory area.
    pub fn backend(&self) -> (backend: &B)
        ensures
            *backend == self.spec_backend(),
    {
        &self.backend
    }

    /// Has the backend map the whole area. A backend that fails leaves a
    /// bad state.
    pub(crate) fn map_area(&self, page_table: &mut P) -> (result: MappingResult)
        requires
            self@.start < self@.end,
        ensures
            result is Err ==> result == Err::<(), MappingError>(MappingError::BadState),
            self.spec_backend().maps(
                VirtAddr(self@.start),
                (self@.end - self@.start) as usize,
                self@.flags,
                old(page_table),
                final(page_table),
                result is Ok,
            ),
    {
        if self.backend.map(self.start(), self.size(), self.flags, page_table) {
            Ok(())
        } else {
            Err(MappingError::BadState)
        }
    }

    /// Has the backend unmap the whole area. A backend that fails leaves a
    /// bad state.
    pub(crate) fn unmap_area(&self, page_table: &mut P) -> (result: MappingResult)
        requires
            self@.start < self@.end,
        ensures
            result is Err ==> result == Err::<(), MappingError>(MappingError::BadState),
            self.spec_backend().unmaps(
                VirtAddr(self@.start),
                (self@.end - self@.start) as usize,
                old(page_table),
                final(page_table),
                result is Ok,
            ),
    {
        if self.backend.unmap(self.start(), self.size(), page_table) {
            Ok(())
        } else {
            Err(MappingError::BadState)
        }
    }

    /// Has the backend unmap the area from its start up to `new_start`,
    /// and lets the area start there. A backend that fails leaves a bad
    /// state, and the area as it was.
    pub(crate) fn shrink_left(&mut self, new_start: usize, page_table: &mut P) -> (result:
        MappingResult)
        requires
            old(self)@.start <= new_start,
        ensures
            match result {
                Ok(_) => final(self)@ == (AreaView { start: new_start, ..old(self)@ }),
                Err(e) => e == MappingError::BadState && final(self)@ == old(self)@,
            },
            final(self).spec_backend() == old(self).spec_backend(),
            old(self).spec_backend().unmaps(
                VirtAddr(old(self)@.start),
                (new_start - old(self)@.start) as usize,
                old(page_table),
                final(page_table),
                result is Ok,
            ),
    {
        let unmap_size: usize = new_start - self.va_range.start.0;
        if !self.backend.unmap(self.start(), unmap_size, page_table) {
            return Err(MappingError::BadState);
        }
        self.va_range.start = VirtAddr(new_start);
        Ok(())
    }

    /// Has the backend unmap the area from `new_end` up to its end, and
    /// lets the area end there. A backend that fails leaves a bad state,
    /// and the area as it was.
    pub(crate) fn shrink_right(&mut self, new_end: usize, page_table: &mut P) -> (result:
        MappingResult)
        requires
            new_end <= old(self)@.end,
        ensures
            match result {
                Ok(_) => final(self)@ == (AreaView { end: new_end, ..old(self)@ }),
                Err(e) => e == MappingError::BadState && final(self)@ == old(self)@,
            },
            final(self).spec_backend() == old(self).spec_backend(),
            old(self).spec_backend().unmaps(
                VirtAddr(new_end),
                (old(self)@.end - new_end) as usize,
                old(page_table),
                final(page_table),
                result is Ok,
            ),
    {
        let unmap_size: usize = self.va_range.end.0 - new_end;
        if !self.backend.unmap(VirtAddr(new_end), unmap_size, page_table) {
            return Err(MappingError::BadState);
        }
        self.va_range.end = VirtAddr(new_end);
        Ok(())
    }

    /// Splits the area at `pos`, an address inside it other than its
    /// start: the area keeps what lies below, and what lies from `pos` on
    /// is returned as an area of its own, with the same flags. Nothing
    /// happens for another `pos`.
    pub(crate) fn split(&mut self, pos: usize) -> (right: Option<Self>)
        ensures
            match right {
                Some(area) => {
                    &&& old(self)@.start < pos < old(self)@.end
                    &&& final(self)@ == (AreaView { end: pos, ..old(self)@ })
                    &&& area@ == (AreaView { start: pos, ..old(self)@ })
                },
                None => !(old(self)@.start < pos < old(self)@.end) && final(self)@ == old(self)@,
            },
            final(self).spec_backend() == old(self).spec_backend(),
    {
        if self.va_range.start.0 < pos && pos < self.va_range.end.0 {
            let right = Self {
                va_range: AddrRange::new(VirtAddr(pos), self.va_range.end),
                flags: self.flags,
                backend: self.backend.clone(),
                _phantom: PhantomData,
            };
            self.va_range.end = VirtAddr(pos);
            Some(right)
        } else {
            None
        }
    }
}

/// Whether `area` holds the address `addr`.
pub open spec fn area_holds<F>(area: AreaView<F>, addr: usize) -> bool {
    area.start <= addr < area.end
}

/// Whether `area` has an address in common with the addresses from `start`
/// up to, but not including, `end`.
pub open spec fn area_meets<F>(area: AreaView<F>, start: usize, end: usize) -> bool {
    area.start < end && start < area.end
}

/// Whether an area of `areas` has an address in common with the addresses
/// from `start` up to, but not including, `end`.
pub open spec fn meets_any<F>(areas: Seq<AreaView<F>>, start: usize, end: usize) -> bool {
    exists|i: int| 0 <= i < areas.len() && area_meets(#[trigger] areas[i], start, end)
}

/// Whether `areas` are the areas of a set: none is empty, and each ends
/// before the next one starts.
pub open spec fn areas_ordered<F>(areas: Seq<AreaView<F>>) -> bool {
    &&& forall|i: int| 0 <= i < areas.len() ==> (#[trigger] areas[i]).start < areas[i].end
    &&& forall|i: int, j: int|
        0 <= i < j < areas.len() ==> (#[trigger] areas[i]).end <= (#[trigger] areas[j]).start
}

/// What is left of `area` when the addresses from `start` up to, but not
/// including, `end` are taken out of it: the area itself, nothing, one
/// piece at either side, or a piece at both sides. Where `end` is not
/// above `start`, there are no such addresses.
pub open spec fn area_minus<F>(area: AreaView<F>, start: usize, end: usize) -> Seq<AreaView<F>> {
    if end <= start || !area_meets(area, start, end) {
        seq![area]
    } else if start <= area.start && area.end <= end {
        Seq::empty()
    } else if area.start < start && end < area.end {
        seq![AreaView { end: start, ..area }, AreaView { start: end, ..area }]
    } else if area.start < start {
        seq![AreaView { end: start, ..area }]
    } else {
        seq![AreaView { start: end, ..area }]
    }
}

/// What is left of `areas` when the addresses from `start` up to, but not
/// including, `end` are taken out of each.
pub open spec fn areas_minus<F>(areas: Seq<AreaView<F>>, start: usize, end: usize) -> Seq<
    AreaView<F>,
>
    decreases areas.len(),
{
    if areas.len() == 0 {
        Seq::empty()
    } else {
        areas_minus(areas.drop_last(), start, end) + area_minus(areas.last(), start, end)
    }
}

/// The number of areas of `areas` that start below `start`: where an area
/// that starts at `start` belongs among them.
pub open spec fn areas_below<F>(areas: Seq<AreaView<F>>, start: usize) -> int
    decreases areas.len(),
{
    if areas.len() == 0 {
        0
    } else if areas.last().start < start {
        areas_below(areas.drop_last(), start) + 1
    } else {
        areas_below(areas.drop_last(), start)
    }
}

/// `areas` with `area` put where it belongs by its start.
pub open spec fn areas_with<F>(areas: Seq<AreaView<F>>, area: AreaView<F>) -> Seq<AreaView<F>> {
    areas.insert(areas_below(areas, area.start), area)
}

/// Whether `inner` lies within `outer` and has the same flags.
pub open spec fn area_inside<F>(inner: AreaView<F>, outer: AreaView<F>) -> bool {
    outer.start <= inner.start && inner.end <= outer.end && inner.flags == outer.flags
}

/// Whether `area` lies within an area of `outer` that has the same flags.
pub open spec fn area_within<F>(area: AreaView<F>, outer: Seq<AreaView<F>>) -> bool {
    exists|j: int| 0 <= j < outer.len() && area_inside(area, #[trigger] outer[j])
}

/// Whether every area of `inner` lies within an area of `outer` that has
/// the same flags.
pub open spec fn areas_within<F>(inner: Seq<AreaView<F>>, outer: Seq<AreaView<F>>) -> bool {
    forall|i: int| 0 <= i < inner.len() ==> area_within(#[trigger] inner[i], outer)
}

/// A set of memory areas, in the order of their addresses; no two of them
/// have an address in common.
pub struct MemorySet<F: Copy, P, B: MappingBackend<F, P>> {
    areas: Vec<MemoryArea<F, P, B>>,
}

impl<F: Copy, P, B: MappingBackend<F, P>> View for MemorySet<F, P, B> {
    type V = Seq<AreaView<F>>;

    open spec fn view(&self) -> Seq<AreaView<F>> {
        self.areas().map_values(|area: MemoryArea<F, P, B>| area@)
    }
}

impl<F: Copy, P, B: MappingBackend<F, P>> MemorySet<F, P, B> {
    /// The areas of the set, in the order of their addresses.
    pub closed spec fn areas(&self) -> Seq<MemoryArea<F, P, B>> {
        self.areas@
    }

    /// The invariant of the set.
    #[verifier::type_invariant]
    pub closed spec fn wf(self) -> bool {
        areas_ordered(self@)
    }

    /// The areas of a well-formed set are in order and apart.
    pub proof fn lemma_ordered(self)
        requires
            self.wf(),
        ensures
            areas_ordered(self@),
    {
    }

    /// Creates a new memory set.
    pub fn new() -> (set: Self)
        ensures
            set@ == Seq::<AreaView<F>>::empty(),
    {
        let set = Self { areas: Vec::new() };
        assert(set@ =~= Seq::<AreaView<F>>::empty());
        set
    }

    /// Returns the number of memory areas in the memory set.
    pub fn len(&self) -> (n: usize)
        ensures
            n == self@.len(),
    {
        self.areas.len()
    }

    /// Returns `true` if the memory set contains no memory areas.
    pub fn is_empty(&self) -> (empty: bool)
        ensures
            empty == (self@.len() == 0),
    {
        self.areas.len() == 0
    }

    /// Returns the iterator over all memory areas, in the order of their
    /// addresses.
    pub fn iter(&self) -> (iter: core::slice::Iter<'_, MemoryArea<F, P, B>>)
        ensures
            vstd::std_specs::slice::into_iter_elts(iter).map_values(
                |area: MemoryArea<F, P, B>| area@,
            ) == self@,
    {
        let iter = self.areas.as_slice().iter();
        iter
    }
}

impl<F: Copy, P, B: MappingBackend<F, P>> MemorySet<F, P, B> {
    /// The view of the area at `index` is the entry of the set's view
    /// there.
    proof fn lemma_view_at(self, index: int)
        requires
            0 <= index < self.areas@.len(),
        ensures
            self@.len() == self.areas@.len(),
            self@[index] == self.areas@[index]@,
    {
    }

    /// Returns whether the given address range overlaps with any existing
    /// area.
    pub fn overlaps(&self, range: VirtAddrRange) -> (meet: bool)
        ensures
            meet == meets_any(self@, range.start.0, range.end.0),
    {
        let mut i: usize = 0;
        while i < self.areas.len()
            invariant
                i <= self.areas@.len(),
                self@.len() == self.areas@.len(),
                forall|j: int|
                    0 <= j < i ==> !area_meets(#[trigger] self@[j], range.start.0, range.end.0),
            decreases self.areas@.len() - i,
        {
            proof {
                self.lemma_view_at(i as int);
            }
            if self.areas[i].va_range().overlaps(range) {
                return true;
            }
            i += 1;
        }
        false
    }

    /// Finds the memory area that contains the given address.
    pub fn find(&self, addr: VirtAddr) -> (found: Option<&MemoryArea<F, P, B>>)
        ensures
            match found {
                Some(area) => exists|i: int|
                    0 <= i < self@.len() && #[trigger] self@[i] == area@ && area_holds(
                        area@,
                        addr.0,
                    ),
                None => forall|i: int| 0 <= i < self@.len() ==> !area_holds(#[trigger] self@[i], addr.0),
            },
    {
        let mut i: usize = 0;
        while i < self.areas.len()
            invariant
                i <= self.areas@.len(),
                self@.len() == self.areas@.len(),
                forall|j: int| 0 <= j < i ==> !area_holds(#[trigger] self@[j], addr.0),
            decreases self.areas@.len() - i,
        {
            proof {
                self.lemma_view_at(i as int);
            }
            if self.areas[i].va_range().contains(addr) {
                return Some(&self.areas[i]);
            }
            i += 1;
        }
        None
    }
}

/// In a set, an address lies in at most one area.
pub proof fn lemma_one_area_holds<F>(areas: Seq<AreaView<F>>, addr: usize, i: int, j: int)
    requires
        areas_ordered(areas),
        0 <= i < areas.len(),
        0 <= j < areas.len(),
        area_holds(areas[i], addr),
        area_holds(areas[j], addr),
    ensures
        i == j,
{
    if i < j {
        assert(areas[i].end <= areas[j].start);
    } else if j < i {
        assert(areas[j].end <= areas[i].start);
    }
}

/// The first address that `area` loses when the addresses from `from` on
/// are taken out of it.
pub open spec fn cut_start<F>(area: AreaView<F>, from: usize) -> usize {
    if area.start < from {
        from
    } else {
        area.start
    }
}

/// The address behind the last one that `area` loses when the addresses
/// below `end` are taken out of it.
pub open spec fn cut_end<F>(area: AreaView<F>, end: usize) -> usize {
    if end < area.end {
        end
    } else {
        area.end
    }
}

/// Whether taking the addresses from `from` up to, but not including,
/// `end` out of `area` may turn the page table `before` into `after`, and
/// succeed or fail as `done` says.
///
/// An area that has none of these addresses asks nothing of its backend.
/// Any other has its backend unmap, in one call, the addresses that it
/// loses.
pub open spec fn area_unmapped<F: Copy, P, B: MappingBackend<F, P>>(
    area: MemoryArea<F, P, B>,
    from: usize,
    end: usize,
    before: P,
    after: P,
    done: bool,
) -> bool {
    if end <= from || !area_meets(area@, from, end) {
        after == before && done
    } else {
        area.spec_backend().unmaps(
            VirtAddr(cut_start(area@, from)),
            (cut_end(area@, end) - cut_start(area@, from)) as usize,
            &before,
            &after,
            done,
        )
    }
}

/// Whether `tables` are the page tables that follow one another while the
/// addresses from `from` up to, but not including, `end` are taken out of
/// `areas`, one area after the other: the first is the page table before,
/// and each area that is dealt with turns one into the next.
///
/// With `done`, every area is dealt with, and succeeds. Without it, the
/// last area that is dealt with is the first whose backend fails.
pub open spec fn unmap_trace<F: Copy, P, B: MappingBackend<F, P>>(
    areas: Seq<MemoryArea<F, P, B>>,
    from: usize,
    end: usize,
    tables: Seq<P>,
    done: bool,
) -> bool {
    &&& 1 <= tables.len() <= areas.len() + 1
    &&& done ==> tables.len() == areas.len() + 1
    &&& !done ==> tables.len() >= 2
    &&& forall|i: int|
        0 <= i < tables.len() - 1 ==> area_unmapped(
            #[trigger] areas[i],
            from,
            end,
            tables[i],
            tables[i + 1],
            done || i < tables.len() - 2,
        )
}

/// Whether taking the addresses from `from` up to, but not including,
/// `end` out of `areas`, one area after the other, may turn the page table
/// `before` into `after`, and succeed or fail as `done` says.
///
/// The first area whose backend fails is the last one that is dealt with.
pub open spec fn areas_unmapped<F: Copy, P, B: MappingBackend<F, P>>(
    areas: Seq<MemoryArea<F, P, B>>,
    from: usize,
    end: usize,
    before: P,
    after: P,
    done: bool,
) -> bool {
    exists|tables: Seq<P>|
        (#[trigger] unmap_trace(areas, from, end, tables, done)) && tables[0] == before
            && tables.last() == after
}

/// Areas that have none of the addresses ask nothing of their backends.
pub proof fn lemma_areas_unmapped_apart<F: Copy, P, B: MappingBackend<F, P>>(
    areas: Seq<MemoryArea<F, P, B>>,
    from: usize,
    end: usize,
    table: P,
)
    requires
        end <= from || !meets_any(views_of(areas), from, end),
    ensures
        areas_unmapped(areas, from, end, table, table, true),
{
    let tables = Seq::new(areas.len() + 1, |i: int| table);
    assert forall|i: int| 0 <= i < tables.len() - 1 implies area_unmapped(
        #[trigger] areas[i],
        from,
        end,
        tables[i],
        tables[i + 1],
        true,
    ) by {
        if from < end {
            assert(views_of(areas)[i] == areas[i]@);
            assert(!area_meets(views_of(areas)[i], from, end));
        }
    }
    assert(unmap_trace(areas, from, end, tables, true));
    assert(tables[0] == table && tables.last() == table);
}

/// The views of `areas`, in order.
pub open spec fn views_of<F: Copy, P, B: MappingBackend<F, P>>(areas: Seq<MemoryArea<F, P, B>>) -> Seq<
    AreaView<F>,
> {
    areas.map_values(|area: MemoryArea<F, P, B>| area@)
}

/// Taking addresses out goes area by area.
pub proof fn lemma_areas_minus_step<F>(areas: Seq<AreaView<F>>, count: int, start: usize, end: usize)
    requires
        0 <= count < areas.len(),
    ensures
        areas_minus(areas.subrange(0, count + 1), start, end) == areas_minus(
            areas.subrange(0, count),
            start,
            end,
        ) + area_minus(areas[count], start, end),
{
    let longer = areas.subrange(0, count + 1);
    assert(longer.drop_last() =~= areas.subrange(0, count));
    assert(longer.last() == areas[count]);
}

/// Taking addresses out of areas that have none of them changes nothing.
pub proof fn lemma_areas_minus_apart<F>(areas: Seq<AreaView<F>>, start: usize, end: usize)
    requires
        forall|i: int| 0 <= i < areas.len() ==> !area_meets(#[trigger] areas[i], start, end),
    ensures
        areas_minus(areas, start, end) == areas,
    decreases areas.len(),
{
    if areas.len() > 0 {
        assert forall|i: int| 0 <= i < areas.drop_last().len() implies !area_meets(
            #[trigger] areas.drop_last()[i],
            start,
            end,
        ) by {
            assert(areas.drop_last()[i] == areas[i]);
        }
        lemma_areas_minus_apart(areas.drop_last(), start, end);
        assert(!area_meets(areas[areas.len() - 1], start, end));
        assert(areas.drop_last() + seq![areas.last()] =~= areas);
    } else {
        assert(areas =~= Seq::<AreaView<F>>::empty());
    }
}

impl<F: Copy, P, B: MappingBackend<F, P>> MemorySet<F, P, B> {
    /// Removes the mappings of the `size` bytes from `start` on: areas
    /// that lie in that range go, and areas that reach into it are shrunk
    /// or split, with the backend unmapping what they lose, one area after
    /// the other.
    ///
    /// A range that ends above the last address is an invalid parameter.
    /// If the backend fails, the set is left in a bad state: the areas
    /// below the failure are done with, the others are as they were.
    /// Where no area has an address of the range, nothing is asked of the
    /// backend and nothing changes.
    pub fn unmap(&mut self, start: VirtAddr, size: usize, page_table: &mut P) -> (result:
        MappingResult)
        ensures
            start.0 + size > usize::MAX ==> result == Err::<(), MappingError>(
                MappingError::InvalidParam,
            ) && final(self)@ == old(self)@ && *final(page_table) == *old(page_table),
            start.0 + size <= usize::MAX ==> match result {
                Ok(_) => final(self)@ == areas_minus(
                    old(self)@,
                    start.0,
                    (start.0 + size) as usize,
                ),
                Err(e) => e == MappingError::BadState && areas_within(final(self)@, old(self)@),
            },
            start.0 + size <= usize::MAX ==> areas_unmapped(
                old(self).areas(),
                start.0,
                (start.0 + size) as usize,
                *old(page_table),
                *final(page_table),
                result is Ok,
            ),
            start.0 + size <= usize::MAX && (size == 0 || !meets_any(
                old(self)@,
                start.0,
                (start.0 + size) as usize,
            )) ==> result is Ok,
    {
        proof {
            use_type_invariant(&*self);
        }
        if size > usize::MAX - start.0 {
            return Err(MappingError::InvalidParam);
        }
        let from: usize = start.0;
        let end: usize = start.0 + size;
        let ghost before = self@;
        let ghost all = self.areas();
        if size == 0 {
            proof {
                lemma_areas_minus_empty_range(before, from, end);
                lemma_areas_unmapped_apart(all, from, end, *page_table);
            }
            return Ok(());
        }
        let mut work: Vec<MemoryArea<F, P, B>> = Vec::new();
        core::mem::swap(&mut self.areas, &mut work);
        assert(views_of(work@) == before);
        let mut i: usize = 0;
        let ghost mut done: int = 0;
        let ghost mut tables: Seq<P> = seq![*page_table];
        assert(before.subrange(0, 0) =~= Seq::<AreaView<F>>::empty());
        assert(before.subrange(0, before.len() as int) =~= before);
        assert(areas_within(before, before)) by {
            assert forall|i: int| 0 <= i < before.len() implies area_within(
                #[trigger] before[i],
                before,
            ) by {
                assert(area_inside(before[i], before[i]));
            }
        }
        let mut failed: bool = false;
        while i < work.len() && !failed
            invariant
                from < end,
                self.areas@.len() == 0,
                before == views_of(all),
                areas_ordered(before),
                0 <= done <= before.len(),
                i <= work@.len(),
                i == areas_minus(before.subrange(0, done), from, end).len(),
                !failed ==> views_of(work@) == areas_minus(before.subrange(0, done), from, end)
                    + before.subrange(done, before.len() as int),
                !failed ==> work@.len() - i == all.len() - done,
                !failed ==> forall|j: int|
                    i <= j < work@.len() ==> #[trigger] work@[j] == all[done + (j - i)],
                areas_ordered(views_of(work@)),
                areas_within(views_of(work@), before),
                failed ==> meets_any(before, from, end),
                tables[0] == *old(page_table),
                tables.last() == *page_table,
                !failed ==> tables.len() == done + 1,
                failed ==> 2 <= tables.len() <= all.len() + 1,
                forall|j: int|
                    0 <= j < tables.len() - 1 ==> area_unmapped(
                        #[trigger] all[j],
                        from,
                        end,
                        tables[j],
                        tables[j + 1],
                        !failed || j < tables.len() - 2,
                    ),
            decreases work@.len() - i + (if failed { 0int } else { 2int }),
        {
            let ghost views = views_of(work@);
            let ghost area = views[i as int];
            let ghost prefix = areas_minus(before.subrange(0, done), from, end);
            let ghost rest_len = before.len() as int;
            let ghost old_work = work@;
            let ghost old_tables = tables;
            proof {
                assert(views[i as int] == before.subrange(done, rest_len)[0]);
                assert(area == before[done]);
                assert(work@[i as int] == all[done]);
                lemma_areas_minus_step(before, done, from, end);
            }
            let area_start: usize = work[i].start().0;
            let area_end: usize = work[i].end().0;
            if !(area_start < end && from < area_end) {
                proof {
                    assert(views =~= (prefix + seq![area]) + before.subrange(done + 1, rest_len));
                    tables = tables.push(*page_table);
                    done = done + 1;
                }
                i += 1;
            } else if from <= area_start && area_end <= end {
                let unmapped = work[i].unmap_area(page_table);
                proof {
                    tables = tables.push(*page_table);
                }
                match unmapped {
                    Ok(_) => {
                        let _ = work.remove(i);
                        proof {
                            let after = views_of(work@);
                            assert(after =~= views.remove(i as int));
                            assert(after =~= (prefix + Seq::<AreaView<F>>::empty())
                                + before.subrange(done + 1, rest_len));
                            lemma_remove_keeps(views, before, i as int);
                            assert forall|j: int| i <= j < work@.len() implies #[trigger] work@[j]
                                == all[done + 1 + (j - i)] by {
                                assert(work@[j] == old_work[j + 1]);
                            }
                            done = done + 1;
                        }
                    },
                    Err(_) => {
                        assert(area_meets(before[done], from, end));
                        failed = true;
                    },
                }
            } else if area_start < from && end < area_end {
                let piece = &mut work[i];
                let right = piece.split(end);
                match right {
                    Some(right) => {
                        let shrunk = work[i].shrink_right(from, page_table);
                        let ghost left = views_of(work@)[i as int];
                        work.insert(i + 1, right);
                        proof {
                            let rest = AreaView { start: end, ..area };
                            let after = views_of(work@);
                            assert(after =~= views.update(i as int, left).insert(i + 1, rest));
                            lemma_split_keeps(views, before, i as int, left, rest);
                            assert(area_meets(before[done], from, end));
                            tables = tables.push(*page_table);
                            if shrunk is Ok {
                                assert(after =~= (prefix + seq![left, rest]) + before.subrange(
                                    done + 1,
                                    rest_len,
                                ));
                                assert forall|j: int| i + 2 <= j < work@.len() implies #[trigger] work@[j]
                                    == all[done + 1 + (j - (i + 2))] by {
                                    assert(work@[j] == old_work[j - 1]);
                                }
                                done = done + 1;
                            }
                        }
                        match shrunk {
                            Ok(_) => {
                                let count: usize = work.len();
                                assert(i + 2 <= count);
                                i += 2;
                            },
                            Err(_) => {
                                failed = true;
                            },
                        }
                    },
                    None => {
                        failed = true;
                    },
                }
            } else if area_start < from {
                let shrunk = work[i].shrink_right(from, page_table);
                proof {
                    tables = tables.push(*page_table);
                }
                match shrunk {
                    Ok(_) => {
                        proof {
                            let left = AreaView { end: from, ..area };
                            let after = views_of(work@);
                            assert(after =~= views.update(i as int, left));
                            assert(after =~= (prefix + seq![left]) + before.subrange(
                                done + 1,
                                rest_len,
                            ));
                            lemma_shrink_keeps(views, before, i as int, left);
                            assert forall|j: int| i + 1 <= j < work@.len() implies #[trigger] work@[j]
                                == all[done + 1 + (j - (i + 1))] by {
                                assert(work@[j] == old_work[j]);
                            }
                            done = done + 1;
                        }
                        i += 1;
                    },
                    Err(_) => {
                        assert(area_meets(before[done], from, end));
                        assert(views_of(work@) =~= views);
                        failed = true;
                    },
                }
            } else {
                let shrunk = work[i].shrink_left(end, page_table);
                proof {
                    tables = tables.push(*page_table);
                }
                match shrunk {
                    Ok(_) => {
                        proof {
                            let rest = AreaView { start: end, ..area };
                            let after = views_of(work@);
                            assert(after =~= views.update(i as int, rest));
                            assert(after =~= (prefix + seq![rest]) + before.subrange(
                                done + 1,
                                rest_len,
                            ));
                            lemma_shrink_keeps(views, before, i as int, rest);
                            assert forall|j: int| i + 1 <= j < work@.len() implies #[trigger] work@[j]
                                == all[done + 1 + (j - (i + 1))] by {
                                assert(work@[j] == old_work[j]);
                            }
                            done = done + 1;
                        }
                        i += 1;
                    },
                    Err(_) => {
                        assert(area_meets(before[done], from, end));
                        assert(views_of(work@) =~= views);
                        failed = true;
                    },
                }
            }
            proof {
                assert forall|j: int| 0 <= j < tables.len() - 1 implies area_unmapped(
                    #[trigger] all[j],
                    from,
                    end,
                    tables[j],
                    tables[j + 1],
                    !failed || j < tables.len() - 2,
                ) by {
                    if j < old_tables.len() - 1 {
                        assert(tables[j] == old_tables[j] && tables[j + 1] == old_tables[j + 1]);
                        assert(area_unmapped(all[j], from, end, old_tables[j], old_tables[j + 1], true));
                    }
                }
            }
        }
        core::mem::swap(&mut self.areas, &mut work);
        if failed {
            proof {
                assert(unmap_trace(all, from, end, tables, false));
            }
            Err(MappingError::BadState)
        } else {
            proof {
                assert(before.subrange(done, before.len() as int).len() == 0) by {
                    if done < before.len() {
                        assert(views_of(self.areas@).len() >= i + 1);
                    }
                }
                assert(before.subrange(done, before.len() as int) =~= Seq::<AreaView<F>>::empty());
                assert(before.subrange(0, done) =~= before);
                assert(unmap_trace(all, from, end, tables, true));
            }
            Ok(())
        }
    }
}

/// Taking no addresses out changes nothing.
pub proof fn lemma_areas_minus_empty_range<F>(areas: Seq<AreaView<F>>, start: usize, end: usize)
    requires
        end <= start,
    ensures
        areas_minus(areas, start, end) == areas,
    decreases areas.len(),
{
    if areas.len() > 0 {
        lemma_areas_minus_empty_range(areas.drop_last(), start, end);
        assert(areas.drop_last() + seq![areas.last()] =~= areas);
    } else {
        assert(areas =~= Seq::<AreaView<F>>::empty());
    }
}

/// Areas that are in order and lie within the areas of a set stay so when
/// one of them goes.
proof fn lemma_remove_keeps<F>(views: Seq<AreaView<F>>, outer: Seq<AreaView<F>>, index: int)
    requires
        areas_ordered(views),
        areas_within(views, outer),
        0 <= index < views.len(),
    ensures
        areas_ordered(views.remove(index)),
        areas_within(views.remove(index), outer),
{
    let after = views.remove(index);
    assert forall|i: int| 0 <= i < after.len() implies (#[trigger] after[i]).start < after[i].end by {
        if i < index {
            assert(after[i] == views[i]);
        } else {
            assert(after[i] == views[i + 1]);
        }
    }
    assert forall|i: int, j: int| 0 <= i < j < after.len() implies (#[trigger] after[i]).end <= (
    #[trigger] after[j]).start by {
        let a = if i < index { i } else { i + 1 };
        let b = if j < index { j } else { j + 1 };
        assert(after[i] == views[a] && after[j] == views[b]);
        assert(views[a].end <= views[b].start);
    }
    assert forall|i: int| 0 <= i < after.len() implies area_within(#[trigger] after[i], outer) by {
        let a = if i < index { i } else { i + 1 };
        assert(after[i] == views[a]);
        assert(area_within(views[a], outer));
    }
}

/// Areas that are in order and lie within the areas of a set stay so when
/// one of them is replaced by a part of it that is not empty.
proof fn lemma_shrink_keeps<F>(
    views: Seq<AreaView<F>>,
    outer: Seq<AreaView<F>>,
    index: int,
    part: AreaView<F>,
)
    requires
        areas_ordered(views),
        areas_within(views, outer),
        0 <= index < views.len(),
        views[index].start <= part.start,
        part.start < part.end,
        part.end <= views[index].end,
        part.flags == views[index].flags,
    ensures
        areas_ordered(views.update(index, part)),
        areas_within(views.update(index, part), outer),
{
    let after = views.update(index, part);
    assert forall|i: int| 0 <= i < after.len() implies (#[trigger] after[i]).start < after[i].end by {
        if i != index {
            assert(after[i] == views[i]);
        }
    }
    assert forall|i: int, j: int| 0 <= i < j < after.len() implies (#[trigger] after[i]).end <= (
    #[trigger] after[j]).start by {
        assert(views[i].end <= views[j].start);
    }
    assert forall|i: int| 0 <= i < after.len() implies area_within(#[trigger] after[i], outer) by {
        assert(area_within(views[i], outer));
        let j = choose|j: int| 0 <= j < outer.len() && area_inside(views[i], #[trigger] outer[j]);
        assert(area_inside(after[i], outer[j]));
    }
}

/// Areas that are in order and lie within the areas of a set stay so when
/// one of them is replaced by two parts of it, one below the other.
proof fn lemma_split_keeps<F>(
    views: Seq<AreaView<F>>,
    outer: Seq<AreaView<F>>,
    index: int,
    left: AreaView<F>,
    right: AreaView<F>,
)
    requires
        areas_ordered(views),
        areas_within(views, outer),
        0 <= index < views.len(),
        views[index].start <= left.start,
        left.start < left.end,
        left.end <= right.start,
        right.start < right.end,
        right.end <= views[index].end,
        left.flags == views[index].flags,
        right.flags == views[index].flags,
    ensures
        areas_ordered(views.update(index, left).insert(index + 1, right)),
        areas_within(views.update(index, left).insert(index + 1, right), outer),
{
    let after = views.update(index, left).insert(index + 1, right);
    assert forall|i: int| 0 <= i < after.len() implies {
        let a = if i <= index { i } else { i - 1 };
        &&& views[a].start <= (#[trigger] after[i]).start
        &&& after[i].start < after[i].end
        &&& after[i].end <= views[a].end
        &&& after[i].flags == views[a].flags
    } by {
        if i < index {
            assert(after[i] == views[i]);
        } else if i > index + 1 {
            assert(after[i] == views[i - 1]);
        }
    }
    assert forall|i: int, j: int| 0 <= i < j < after.len() implies (#[trigger] after[i]).end <= (
    #[trigger] after[j]).start by {
        let a = if i <= index { i } else { i - 1 };
        let b = if j <= index { j } else { j - 1 };
        if a < b {
            assert(views[a].end <= views[b].start);
        }
    }
    assert forall|i: int| 0 <= i < after.len() implies area_within(#[trigger] after[i], outer) by {
        let a = if i <= index { i } else { i - 1 };
        assert(area_within(views[a], outer));
        let j = choose|j: int| 0 <= j < outer.len() && area_inside(views[a], #[trigger] outer[j]);
        assert(area_inside(after[i], outer[j]));
    }
}

/// Whether mapping `area` into a set with the areas `areas` may leave the
/// set with the areas `after` and end in `result`.
///
/// An empty area is an invalid parameter, and an area that meets the set,
/// unless what it meets is to be unmapped, exists already; the set is then
/// unchanged. Else success leaves what is left of the set when the area's
/// addresses are taken out, with the area added; a failure of a backend
/// leaves a bad state, with areas that lie within those of the set.
pub open spec fn map_outcome<F>(
    areas: Seq<AreaView<F>>,
    area: AreaView<F>,
    unmap_overlap: bool,
    after: Seq<AreaView<F>>,
    result: Result<(), MappingError>,
) -> bool {
    if area.start >= area.end {
        result == Err::<(), MappingError>(MappingError::InvalidParam) && after == areas
    } else if !unmap_overlap && meets_any(areas, area.start, area.end) {
        result == Err::<(), MappingError>(MappingError::AlreadyExists) && after == areas
    } else {
        match result {
            Ok(_) => after == areas_with(areas_minus(areas, area.start, area.end), area),
            Err(e) => e == MappingError::BadState && areas_within(after, areas),
        }
    }
}

/// Whether mapping `area` into a set with the areas `areas` may turn the
/// page table `before` into `after`, and succeed or fail as `done` says.
///
/// An area that is refused leaves the page table alone. Else the
/// addresses of the area are taken out of the areas of the set, as by
/// `unmap`, and then the area's backend maps the area, in one call; a
/// failure ends the work where it occurs.
pub open spec fn mapped_through<F: Copy, P, B: MappingBackend<F, P>>(
    areas: Seq<MemoryArea<F, P, B>>,
    area: MemoryArea<F, P, B>,
    unmap_overlap: bool,
    before: P,
    after: P,
    done: bool,
) -> bool {
    let start = area@.start;
    let end = area@.end;
    if start >= end || (!unmap_overlap && meets_any(views_of(areas), start, end)) {
        after == before
    } else {
        ||| (exists|mid: P|
            (#[trigger] areas_unmapped(areas, start, end, before, mid, true))
                && area.spec_backend().maps(
                VirtAddr(start),
                (end - start) as usize,
                area@.flags,
                &mid,
                &after,
                done,
            ))
        ||| (!done && areas_unmapped(areas, start, end, before, after, false))
    }
}

/// What is left when addresses are taken out has none of them.
pub proof fn lemma_areas_minus_is_apart<F>(areas: Seq<AreaView<F>>, start: usize, end: usize)
    requires
        start < end,
    ensures
        !meets_any(areas_minus(areas, start, end), start, end),
    decreases areas.len(),
{
    if areas.len() > 0 {
        lemma_areas_minus_is_apart(areas.drop_last(), start, end);
        let head = areas_minus(areas.drop_last(), start, end);
        let tail = area_minus(areas.last(), start, end);
        assert forall|i: int| 0 <= i < (head + tail).len() implies !area_meets(
            #[trigger] (head + tail)[i],
            start,
            end,
        ) by {
            if i < head.len() {
                assert((head + tail)[i] == head[i]);
            } else {
                assert((head + tail)[i] == tail[i - head.len()]);
            }
        }
    }
}

/// In a set, the areas that start below an address are those before the
/// first that does not.
pub proof fn lemma_areas_below<F>(areas: Seq<AreaView<F>>, start: usize, count: int)
    requires
        0 <= count <= areas.len(),
        forall|i: int| 0 <= i < count ==> (#[trigger] areas[i]).start < start,
        forall|i: int| count <= i < areas.len() ==> (#[trigger] areas[i]).start >= start,
    ensures
        areas_below(areas, start) == count,
    decreases areas.len(),
{
    if areas.len() > 0 {
        let shorter = areas.drop_last();
        assert forall|i: int| 0 <= i < shorter.len() implies shorter[i] == areas[i] by {}
        if count == areas.len() {
            assert(areas.last() == areas[count - 1]);
            lemma_areas_below(shorter, start, count - 1);
        } else {
            assert(areas.last() == areas[areas.len() - 1]);
            lemma_areas_below(shorter, start, count);
        }
    }
}

impl<F: Copy, P, B: MappingBackend<F, P>> MemorySet<F, P, B> {
    /// Puts `area`, which is not empty and has no address in common with
    /// an area of the set, where it belongs.
    fn insert_apart(&mut self, area: MemoryArea<F, P, B>)
        requires
            area@.start < area@.end,
            !meets_any(old(self)@, area@.start, area@.end),
        ensures
            final(self)@ == areas_with(old(self)@, area@),
    {
        proof {
            use_type_invariant(&*self);
        }
        let ghost cleared = self@;
        let from: usize = area.start().0;
        let ghost end = area@.end;
        let mut work: Vec<MemoryArea<F, P, B>> = Vec::new();
        core::mem::swap(&mut self.areas, &mut work);
        let mut at: usize = 0;
        while at < work.len() && work[at].start().0 < from
            invariant
                at <= work@.len(),
                views_of(work@) == cleared,
                forall|j: int| 0 <= j < at ==> (#[trigger] cleared[j]).start < from,
            decreases work@.len() - at,
        {
            at += 1;
        }
        proof {
            assert forall|j: int| at <= j < cleared.len() implies (#[trigger] cleared[j]).start
                >= from by {
                if j > at {
                    assert(cleared[at as int].end <= cleared[j].start);
                }
            }
            lemma_areas_below(cleared, from, at as int);
        }
        let ghost added = area@;
        work.insert(at, area);
        proof {
            let after = views_of(work@);
            assert(after =~= cleared.insert(at as int, added));
            assert forall|i: int| 0 <= i < after.len() implies (#[trigger] after[i]).start
                < after[i].end by {
                if i < at {
                    assert(after[i] == cleared[i]);
                } else if i > at {
                    assert(after[i] == cleared[i - 1]);
                }
            }
            assert forall|i: int, j: int| 0 <= i < j < after.len() implies (#[trigger] after[i]).end
                <= (#[trigger] after[j]).start by {
                let a = if i < at { i } else { i - 1 };
                let b = if j < at { j } else { j - 1 };
                if i != at && j != at {
                    assert(after[i] == cleared[a] && after[j] == cleared[b]);
                    assert(cleared[a].end <= cleared[b].start);
                } else if i == at {
                    assert(after[j] == cleared[b]);
                    assert(!area_meets(cleared[b], from, end));
                } else {
                    assert(after[i] == cleared[a]);
                    assert(!area_meets(cleared[a], from, end));
                }
            }
        }
        core::mem::swap(&mut self.areas, &mut work);
    }

    /// Adds `area` to the set, and has its backend map it.
    ///
    /// An empty area is an invalid parameter. If the area has an address
    /// in common with an area of the set, then with `unmap_overlap` those
    /// addresses are unmapped first, as by `unmap`, and without it the
    /// area is refused as already existing. Both leave the set as it was.
    /// If a backend fails, the set is left in a bad state: what was
    /// unmapped before the failure stays unmapped, and the area is not
    /// added.
    pub fn map(&mut self, area: MemoryArea<F, P, B>, page_table: &mut P, unmap_overlap: bool) -> (result:
        MappingResult)
        ensures
            map_outcome(old(self)@, area@, unmap_overlap, final(self)@, result),
            mapped_through(
                old(self).areas(),
                area,
                unmap_overlap,
                *old(page_table),
                *final(page_table),
                result is Ok,
            ),
    {
        proof {
            use_type_invariant(&*self);
        }
        let ghost before = self@;
        let ghost all = self.areas();
        let range = area.va_range();
        let from: usize = range.start.0;
        let end: usize = range.end.0;
        if range.is_empty() {
            return Err(MappingError::InvalidParam);
        }
        let meet = self.overlaps(range);
        assert(meet == meets_any(before, from, end));
        if meet {
            if !unmap_overlap {
                return Err(MappingError::AlreadyExists);
            }
            match self.unmap(range.start, end - from, page_table) {
                Ok(_) => {},
                Err(e) => {
                    return Err(e);
                },
            }
        } else {
            proof {
                lemma_areas_minus_apart(before, from, end);
                lemma_areas_unmapped_apart(all, from, end, *page_table);
            }
        }
        let ghost cleared = self@;
        let ghost mid = *page_table;
        proof {
            lemma_areas_minus_is_apart(before, from, end);
            lemma_areas_minus_within(before, from, end);
            assert(areas_unmapped(all, from, end, *old(page_table), mid, true));
        }
        match area.map_area(page_table) {
            Ok(_) => {},
            Err(e) => {
                return Err(e);
            },
        }
        self.insert_apart(area);
        Ok(())
    }

    /// Removes all areas from the set, and has their backends unmap them,
    /// one area after the other.
    ///
    /// If a backend fails, the set is left in a bad state, with all its
    /// areas. An empty set is cleared without asking anything of a
    /// backend.
    pub fn clear(&mut self, page_table: &mut P) -> (result: MappingResult)
        ensures
            match result {
                Ok(_) => final(self)@ == Seq::<AreaView<F>>::empty(),
                Err(e) => e == MappingError::BadState && final(self)@ == old(self)@,
            },
            areas_unmapped(
                old(self).areas(),
                0,
                usize::MAX,
                *old(page_table),
                *final(page_table),
                result is Ok,
            ),
            old(self)@.len() == 0 ==> result is Ok,
    {
        proof {
            use_type_invariant(&*self);
        }
        let ghost all = self.areas();
        let ghost mut tables: Seq<P> = seq![*page_table];
        let mut i: usize = 0;
        while i < self.areas.len()
            invariant
                i <= self.areas@.len(),
                *self == *old(self),
                all == self.areas(),
                areas_ordered(self@),
                tables.len() == i + 1,
                tables[0] == *old(page_table),
                tables.last() == *page_table,
                forall|j: int|
                    0 <= j < i ==> area_unmapped(
                        #[trigger] all[j],
                        0,
                        usize::MAX,
                        tables[j],
                        tables[j + 1],
                        true,
                    ),
            decreases self.areas@.len() - i,
        {
            proof {
                self.lemma_view_at(i as int);
            }
            let unmapped = self.areas[i].unmap_area(page_table);
            proof {
                let before = tables;
                tables = tables.push(*page_table);
                assert(area_unmapped(
                    all[i as int],
                    0,
                    usize::MAX,
                    tables[i as int],
                    tables[i + 1],
                    unmapped is Ok,
                ));
                assert forall|j: int| 0 <= j < i implies area_unmapped(
                    #[trigger] all[j],
                    0,
                    usize::MAX,
                    tables[j],
                    tables[j + 1],
                    true,
                ) by {
                    assert(tables[j] == before[j] && tables[j + 1] == before[j + 1]);
                }
            }
            match unmapped {
                Ok(_) => {},
                Err(e) => {
                    proof {
                        assert(unmap_trace(all, 0, usize::MAX, tables, false));
                    }
                    return Err(e);
                },
            }
            i += 1;
        }
        proof {
            assert(unmap_trace(all, 0, usize::MAX, tables, true));
        }
        self.areas = Vec::new();
        assert(self@ =~= Seq::<AreaView<F>>::empty());
        Ok(())
    }
}

/// What is left when addresses are taken out lies within what was there.
pub proof fn lemma_areas_minus_within<F>(areas: Seq<AreaView<F>>, start: usize, end: usize)
    ensures
        areas_within(areas_minus(areas, start, end), areas),
    decreases areas.len(),
{
    if areas.len() > 0 {
        let shorter = areas.drop_last();
        lemma_areas_minus_within(shorter, start, end);
        let head = areas_minus(shorter, start, end);
        let tail = area_minus(areas.last(), start, end);
        assert forall|i: int| 0 <= i < (head + tail).len() implies area_within(
            #[trigger] (head + tail)[i],
            areas,
        ) by {
            if i < head.len() {
                assert((head + tail)[i] == head[i]);
                assert(area_within(head[i], shorter));
                let j = choose|j: int|
                    0 <= j < shorter.len() && area_inside(head[i], #[trigger] shorter[j]);
                assert(shorter[j] == areas[j]);
                assert(area_inside(head[i], areas[j]));
            } else {
                assert((head + tail)[i] == tail[i - head.len()]);
                assert(area_inside(tail[i - head.len()], areas[areas.len() - 1]));
            }
        }
    }
}

} // verus!
