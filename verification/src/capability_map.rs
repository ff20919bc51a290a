//! The capability chain store of a device: capabilities keyed by the byte
//! range of configuration space that each one occupies.

use vstd::prelude::*;
use crate::error::HyperError;
use crate::capability::CapabilityEnum;
use crate::rw_struct::ReadWriteStruct;

verus! {

/// Where the standard header ends and the capability region begins.
pub const PCI_CONFIG_HEADER_END: usize = 0x40;

/// Whether the range `key`, given as `(start, end)`, contains `offset`.
pub open spec fn covers(key: (u8, u8), offset: u8) -> bool {
    key.0 <= offset < key.1
}

/// Whether two ranges have no offset in common.
pub open spec fn disjoint(a: (u8, u8), b: (u8, u8)) -> bool {
    a.1 <= b.0 || b.1 <= a.0
}

/// Whether `key` is a range that a capability may occupy: not empty, and
/// behind the standard header.
pub open spec fn valid_range(key: (u8, u8)) -> bool {
    0x40 <= key.0 < key.1
}

/// Whether the ranges of `map` are valid and pairwise disjoint.
pub open spec fn ranges_valid(map: Map<(u8, u8), CapabilityEnum>) -> bool {
    &&& forall|k: (u8, u8)| #[trigger] map.contains_key(k) ==> valid_range(k)
    &&& forall|a: (u8, u8), b: (u8, u8)|
        #[trigger] map.contains_key(a) && #[trigger] map.contains_key(b) && a != b ==> disjoint(
            a,
            b,
        )
}

/// The range of `map` that contains `offset`, if there is one.
pub open spec fn covering_key(map: Map<(u8, u8), CapabilityEnum>, offset: u8) -> Option<(u8, u8)> {
    if exists|k: (u8, u8)| #[trigger] map.contains_key(k) && covers(k, offset) {
        Some(choose|k: (u8, u8)| #[trigger] map.contains_key(k) && covers(k, offset))
    } else {
        None
    }
}

/// Whether a capability may be stored in `map` under `key`: the key is
/// there already, or it is a valid range that meets no range of the map.
pub open spec fn insertable(map: Map<(u8, u8), CapabilityEnum>, key: (u8, u8)) -> bool {
    map.contains_key(key) || (valid_range(key) && forall|k: (u8, u8)| #[trigger]
        map.contains_key(k) ==> disjoint(k, key))
}

/// Whether a capability of `map` starts at `offset`.
pub open spec fn starts_at(map: Map<(u8, u8), CapabilityEnum>, offset: int) -> bool {
    exists|k: (u8, u8)| #[trigger] map.contains_key(k) && k.0 == offset
}

/// Whether `pointer` is a link of the capability chain that leads
/// somewhere: it is 0, which ends the chain, or the offset at which a
/// capability of `map` starts.
pub open spec fn link_valid(map: Map<(u8, u8), CapabilityEnum>, pointer: int) -> bool {
    pointer == 0 || starts_at(map, pointer)
}

/// Whether the chain that starts at `head` is consistent with the ranges
/// of `map`: the head and the next-pointer of every capability are valid
/// links.
pub open spec fn chain_closed(map: Map<(u8, u8), CapabilityEnum>, head: int) -> bool {
    &&& link_valid(map, head)
    &&& forall|k: (u8, u8)| #[trigger]
        map.contains_key(k) ==> link_valid(map, map[k].bytes()[1] as int)
}

/// An offset inside a stored range is looked up to that range, and so to
/// the capability stored under it.
pub proof fn lemma_lookup_inside(map: Map<(u8, u8), CapabilityEnum>, key: (u8, u8), offset: u8)
    requires
        ranges_valid(map),
        map.contains_key(key),
        covers(key, offset),
    ensures
        covering_key(map, offset) == Some(key),
{
    let k = choose|k: (u8, u8)| #[trigger] map.contains_key(k) && covers(k, offset);
    assert(map.contains_key(k) && covers(k, offset));
    if k != key {
        assert(disjoint(k, key));
    }
}

/// An offset outside every stored range is looked up to nothing.
pub proof fn lemma_lookup_outside(map: Map<(u8, u8), CapabilityEnum>, offset: u8)
    requires
        forall|k: (u8, u8)| #[trigger] map.contains_key(k) ==> !covers(k, offset),
    ensures
        covering_key(map, offset) is None,
{
}

/// Storing a capability where it may be stored keeps the ranges valid and
/// pairwise disjoint.
pub proof fn lemma_insert_keeps_ranges_valid(
    map: Map<(u8, u8), CapabilityEnum>,
    key: (u8, u8),
    capability: CapabilityEnum,
)
    requires
        ranges_valid(map),
        insertable(map, key),
    ensures
        ranges_valid(map.insert(key, capability)),
{
    let after = map.insert(key, capability);
    assert forall|a: (u8, u8), b: (u8, u8)|
        #[trigger] after.contains_key(a) && #[trigger] after.contains_key(b) && a != b implies disjoint(
        a,
        b,
    ) by {
        if a != key && b != key {
            assert(map.contains_key(a) && map.contains_key(b));
        }
    }
}

/// Replacing the capability stored under a range changes no lookup.
pub proof fn lemma_replace_keeps_lookup(
    map: Map<(u8, u8), CapabilityEnum>,
    key: (u8, u8),
    capability: CapabilityEnum,
    offset: u8,
)
    requires
        map.contains_key(key),
    ensures
        covering_key(map.insert(key, capability), offset) == covering_key(map, offset),
{
    let after = map.insert(key, capability);
    assert(after.dom() =~= map.dom());
    assert forall|k: (u8, u8)| after.contains_key(k) == map.contains_key(k) by {}
}

/// The capabilities of one device, each under the range it occupies.
///
/// No two ranges overlap, so an offset belongs to at most one capability.
#[derive(Debug)]
pub struct CapabilityMap {
    entries: Vec<(u8, u8, CapabilityEnum)>,
}

pub closed spec fn entry_key(entry: (u8, u8, CapabilityEnum)) -> (u8, u8) {
    (entry.0, entry.1)
}

impl View for CapabilityMap {
    type V = Map<(u8, u8), CapabilityEnum>;

    closed spec fn view(&self) -> Map<(u8, u8), CapabilityEnum> {
        Map::new(
            |k: (u8, u8)|
                exists|i: int|
                    0 <= i < self.entries@.len() && entry_key(#[trigger] self.entries@[i]) == k,
            |k: (u8, u8)|
                self.entries@[choose|i: int|
                    0 <= i < self.entries@.len() && entry_key(#[trigger] self.entries@[i]) == k].2,
        )
    }
}

impl CapabilityMap {
    /// The invariant of the store.
    #[verifier::type_invariant]
    pub closed spec fn wf(self) -> bool {
        &&& forall|i: int|
            0 <= i < self.entries@.len() ==> valid_range(entry_key(#[trigger] self.entries@[i]))
        &&& forall|i: int, j: int|
            0 <= i < j < self.entries@.len() ==> disjoint(
                entry_key(#[trigger] self.entries@[i]),
                entry_key(#[trigger] self.entries@[j]),
            )
    }

    /// A well-formed store holds valid, pairwise disjoint ranges.
    pub proof fn lemma_ranges_valid(self)
        requires
            self.wf(),
        ensures
            ranges_valid(self@),
    {
    }

    /// A store without capabilities.
    pub fn new() -> (map: Self)
        ensures
            map@ == Map::<(u8, u8), CapabilityEnum>::empty(),
            map.wf(),
    {
        let map = CapabilityMap { entries: Vec::new() };
        assert(map@ =~= Map::<(u8, u8), CapabilityEnum>::empty());
        map
    }

    /// Entry `i` is in the view, under its key.
    proof fn lemma_entry_in_view(self, i: int)
        requires
            self.wf(),
            0 <= i < self.entries@.len(),
        ensures
            self@.contains_key(entry_key(self.entries@[i])),
            self@[entry_key(self.entries@[i])] == self.entries@[i].2,
    {
        let k = entry_key(self.entries@[i]);
        let j = choose|j: int| 0 <= j < self.entries@.len() && entry_key(#[trigger] self.entries@[j]) == k;
        if j < i {
            assert(disjoint(entry_key(self.entries@[j]), entry_key(self.entries@[i])));
        } else if i < j {
            assert(disjoint(entry_key(self.entries@[i]), entry_key(self.entries@[j])));
        }
    }

    /// The capability whose range contains `offset`, if there is one.
    pub fn find(&self, offset: u8) -> (found: Option<CapabilityEnum>)
        ensures
            found == match covering_key(self@, offset) {
                Some(k) => Some(self@[k]),
                None => None,
            },
    {
        proof {
            use_type_invariant(self);
        }
        let mut i: usize = 0;
        while i < self.entries.len()
            invariant
                self.wf(),
                i <= self.entries@.len(),
                forall|j: int| 0 <= j < i ==> !covers(entry_key(#[trigger] self.entries@[j]), offset),
            decreases self.entries@.len() - i,
        {
            let (start, end, capability) = self.entries[i];
            if start <= offset && offset < end {
                proof {
                    self.lemma_covering(i as int, offset);
                }
                return Some(capability);
            }
            i += 1;
        }
        None
    }

    /// The range that contains `offset`; `(0xff, 0xff)` if there is none.
    pub fn find_range(&self, offset: u8) -> (range: (u8, u8))
        ensures
            range == match covering_key(self@, offset) {
                Some(k) => k,
                None => (0xffu8, 0xffu8),
            },
    {
        proof {
            use_type_invariant(self);
        }
        let mut i: usize = 0;
        while i < self.entries.len()
            invariant
                self.wf(),
                i <= self.entries@.len(),
                forall|j: int| 0 <= j < i ==> !covers(entry_key(#[trigger] self.entries@[j]), offset),
            decreases self.entries@.len() - i,
        {
            let (start, end, _) = self.entries[i];
            if start <= offset && offset < end {
                proof {
                    self.lemma_covering(i as int, offset);
                }
                return (start, end);
            }
            i += 1;
        }
        (0xff, 0xff)
    }

    /// Entry `i`, whose range contains `offset`, is the covering entry.
    proof fn lemma_covering(self, i: int, offset: u8)
        requires
            self.wf(),
            0 <= i < self.entries@.len(),
            covers(entry_key(self.entries@[i]), offset),
        ensures
            covering_key(self@, offset) == Some(entry_key(self.entries@[i])),
            self@[entry_key(self.entries@[i])] == self.entries@[i].2,
    {
        self.lemma_entry_in_view(i);
        self.lemma_ranges_valid();
        let k = choose|k: (u8, u8)| #[trigger] self@.contains_key(k) && covers(k, offset);
        assert(self@.contains_key(k) && covers(k, offset));
    }

    /// Stores `capability` under the range from `start` to `end`.
    ///
    /// A capability that is stored under that very range is replaced. A
    /// new range must be valid and must meet no range of the store: one
    /// that is empty or reaches into the standard header is refused as an
    /// invalid parameter, one that overlaps a stored range as a bad state.
    /// A refused call changes nothing.
    pub fn insert(&mut self, start: u8, end: u8, capability: CapabilityEnum) -> (result: Result<
        (),
        HyperError,
    >)
        ensures
            result is Ok <==> insertable(old(self)@, (start, end)),
            result is Ok ==> final(self)@ == old(self)@.insert((start, end), capability),
            result is Err ==> final(self)@ == old(self)@,
            result is Err ==> (result == Err::<(), HyperError>(HyperError::InvalidParam)
                <==> !valid_range((start, end))),
            result is Err ==> (result == Err::<(), HyperError>(HyperError::BadState)
                <==> valid_range((start, end))),
    {
        proof {
            use_type_invariant(&*self);
            self.lemma_ranges_valid();
        }
        let mut i: usize = 0;
        while i < self.entries.len()
            invariant
                *self == *old(self),
                self.wf(),
                i <= self.entries@.len(),
                forall|j: int| 0 <= j < i ==> entry_key(#[trigger] self.entries@[j]) != (start, end),
            decreases self.entries@.len() - i,
        {
            let (s, e, _) = self.entries[i];
            if s == start && e == end {
                let ghost before = *self;
                let mut entries: Vec<(u8, u8, CapabilityEnum)> = Vec::new();
                core::mem::swap(&mut self.entries, &mut entries);
                entries.set(i, (start, end, capability));
                core::mem::swap(&mut self.entries, &mut entries);
                proof {
                    before.lemma_entry_in_view(i as int);
                    assert forall|k: (u8, u8)| self@.contains_key(k) <==> before@.contains_key(k) by {
                        if self@.contains_key(k) {
                            let j = choose|j: int| 0 <= j < self.entries@.len() && entry_key(#[trigger] self.entries@[j]) == k;
                            assert(entry_key(before.entries@[j]) == k);
                        }
                        if before@.contains_key(k) {
                            let j = choose|j: int| 0 <= j < before.entries@.len() && entry_key(#[trigger] before.entries@[j]) == k;
                            assert(entry_key(self.entries@[j]) == k);
                        }
                    }
                    assert forall|k: (u8, u8)| self@.contains_key(k) implies self@[k] == before@.insert((start, end), capability)[k] by {
                        let j = choose|j: int| 0 <= j < self.entries@.len() && entry_key(#[trigger] self.entries@[j]) == k;
                        self.lemma_entry_in_view(j);
                        before.lemma_entry_in_view(j);
                    }
                    assert(self@ =~= before@.insert((start, end), capability));
                }
                return Ok(());
            }
            i += 1;
        }
        assert(!self@.contains_key((start, end)));
        if !(0x40 <= start && start < end) {
            return Err(HyperError::InvalidParam);
        }
        let mut i: usize = 0;
        while i < self.entries.len()
            invariant
                *self == *old(self),
                self.wf(),
                i <= self.entries@.len(),
                valid_range((start, end)),
                !self@.contains_key((start, end)),
                forall|j: int| 0 <= j < i ==> disjoint(entry_key(#[trigger] self.entries@[j]), (start, end)),
            decreases self.entries@.len() - i,
        {
            let (s, e, _) = self.entries[i];
            if !(e <= start || end <= s) {
                proof {
                    self.lemma_entry_in_view(i as int);
                }
                return Err(HyperError::BadState);
            }
            i += 1;
        }
        let ghost before = *self;
        let mut entries: Vec<(u8, u8, CapabilityEnum)> = Vec::new();
        core::mem::swap(&mut self.entries, &mut entries);
        entries.push((start, end, capability));
        core::mem::swap(&mut self.entries, &mut entries);
        proof {
            let last = before.entries@.len() as int;
            assert(self.entries@[last] == (start, end, capability));
            assert forall|k: (u8, u8)| before@.contains_key(k) implies disjoint(k, (start, end)) by {
                let j = choose|j: int| 0 <= j < before.entries@.len() && entry_key(#[trigger] before.entries@[j]) == k;
            }
            assert forall|k: (u8, u8)| self@.contains_key(k) <==> before@.insert((start, end), capability).contains_key(k) by {
                if self@.contains_key(k) {
                    let j = choose|j: int| 0 <= j < self.entries@.len() && entry_key(#[trigger] self.entries@[j]) == k;
                    if j < last {
                        assert(entry_key(before.entries@[j]) == k);
                    }
                }
                if before@.contains_key(k) {
                    let j = choose|j: int| 0 <= j < before.entries@.len() && entry_key(#[trigger] before.entries@[j]) == k;
                    assert(entry_key(self.entries@[j]) == k);
                }
                if k == (start, end) {
                    assert(entry_key(self.entries@[last]) == k);
                }
            }
            assert forall|k: (u8, u8)| self@.contains_key(k) implies self@[k] == before@.insert((start, end), capability)[k] by {
                let j = choose|j: int| 0 <= j < self.entries@.len() && entry_key(#[trigger] self.entries@[j]) == k;
                self.lemma_entry_in_view(j);
                if j < last {
                    before.lemma_entry_in_view(j);
                }
            }
            assert(self@ =~= before@.insert((start, end), capability));
        }
        Ok(())
    }

    /// Whether a capability starts at `offset`.
    pub fn has_start(&self, offset: u8) -> (found: bool)
        ensures
            found == starts_at(self@, offset as int),
    {
        proof {
            use_type_invariant(self);
        }
        let mut i: usize = 0;
        while i < self.entries.len()
            invariant
                self.wf(),
                i <= self.entries@.len(),
                forall|j: int| 0 <= j < i ==> (#[trigger] self.entries@[j]).0 != offset,
            decreases self.entries@.len() - i,
        {
            if self.entries[i].0 == offset {
                proof {
                    self.lemma_entry_in_view(i as int);
                }
                return true;
            }
            i += 1;
        }
        proof {
            if starts_at(self@, offset as int) {
                let k = choose|k: (u8, u8)| #[trigger] self@.contains_key(k) && k.0 == offset;
                let j = choose|j: int|
                    0 <= j < self.entries@.len() && entry_key(#[trigger] self.entries@[j]) == k;
                assert(self.entries@[j].0 == offset);
            }
        }
        false
    }

    /// Whether the chain that starts at `head` is consistent with the
    /// stored ranges.
    pub fn chain_closed(&self, head: u16) -> (closed: bool)
        ensures
            closed == chain_closed(self@, head as int),
    {
        proof {
            use_type_invariant(self);
        }
        if head != 0 {
            if head > 0xff {
                return false;
            }
            if !self.has_start(head as u8) {
                return false;
            }
        }
        let mut i: usize = 0;
        while i < self.entries.len()
            invariant
                self.wf(),
                i <= self.entries@.len(),
                link_valid(self@, head as int),
                forall|j: int|
                    0 <= j < i ==> link_valid(
                        self@,
                        (#[trigger] self.entries@[j]).2.bytes()[1] as int,
                    ),
            decreases self.entries@.len() - i,
        {
            let next: u8 = self.entries[i].2.next_region();
            if next != 0 && !self.has_start(next) {
                proof {
                    self.lemma_entry_in_view(i as int);
                }
                return false;
            }
            i += 1;
        }
        proof {
            assert forall|k: (u8, u8)| #[trigger] self@.contains_key(k) implies link_valid(
                self@,
                self@[k].bytes()[1] as int,
            ) by {
                let j = choose|j: int|
                    0 <= j < self.entries@.len() && entry_key(#[trigger] self.entries@[j]) == k;
                self.lemma_entry_in_view(j);
            }
        }
        true
    }
}

impl Clone for CapabilityMap {
    /// A store with the same capabilities under the same ranges.
    fn clone(&self) -> (copy: Self)
        ensures
            copy@ == self@,
    {
        proof {
            use_type_invariant(self);
        }
        let mut entries: Vec<(u8, u8, CapabilityEnum)> = Vec::new();
        let mut i: usize = 0;
        while i < self.entries.len()
            invariant
                i <= self.entries@.len(),
                entries@ == self.entries@.subrange(0, i as int),
            decreases self.entries@.len() - i,
        {
            entries.push(self.entries[i]);
            i += 1;
            assert(entries@ =~= self.entries@.subrange(0, i as int));
        }
        assert(entries@ =~= self.entries@);
        let copy = CapabilityMap { entries };
        assert(copy@ =~= self@);
        copy
    }
}

} // verus!
