use hv_device::addr::VirtAddr;
use hv_device::memory_set::{MappingBackend, MappingError, MemoryArea, MemorySet};

const MAX_ADDR: usize = 0x10000;

type DummyFlags = u8;
type DummyPageTable = [u8; MAX_ADDR];

#[derive(Clone)]
struct DummyBackend;

type DummyMemorySet = MemorySet<DummyFlags, DummyPageTable, DummyBackend>;

impl MappingBackend<DummyFlags, DummyPageTable> for DummyBackend {
    fn maps(
        &self,
        _: VirtAddr,
        _: usize,
        _: DummyFlags,
        _: &DummyPageTable,
        _: &DummyPageTable,
        _: bool,
    ) -> bool {
        true
    }

    fn unmaps(&self, _: VirtAddr, _: usize, _: &DummyPageTable, _: &DummyPageTable, _: bool) -> bool {
        true
    }

    fn map(
        &self,
        start: VirtAddr,
        size: usize,
        flags: DummyFlags,
        pt: &mut DummyPageTable,
    ) -> bool {
        for entry in pt.iter_mut().skip(start.as_usize()).take(size) {
            if *entry != 0 {
                return false;
            }
            *entry = flags;
        }
        true
    }

    fn unmap(&self, start: VirtAddr, size: usize, pt: &mut DummyPageTable) -> bool {
        for entry in pt.iter_mut().skip(start.as_usize()).take(size) {
            if *entry == 0 {
                return false;
            }
            *entry = 0;
        }
        true
    }
}

fn dump_memory_set(set: &DummyMemorySet) {
    println!("Number of areas: {}", set.len());
    for area in set.iter() {
        println!("{:?}..{:?} flags {:?}", area.start(), area.end(), area.flags());
    }
}

fn areas_of(set: &DummyMemorySet) -> Vec<(usize, usize, u8)> {
    set.iter().map(|area| (area.start().as_usize(), area.end().as_usize(), area.flags())).collect()
}

#[test]
fn test_map_unmap() {
    let mut set = DummyMemorySet::new();
    let mut pt = [0; MAX_ADDR];

    // Map [0, 0x1000), [0x2000, 0x3000), [0x4000, 0x5000), ...
    for start in (0..MAX_ADDR).step_by(0x2000) {
        assert!((set.map(MemoryArea::new(start.into(), 0x1000, 1, DummyBackend), &mut pt, false,))
            .is_ok());
    }
    // Map [0x1000, 0x2000), [0x3000, 0x4000), [0x5000, 0x6000), ...
    for start in (0x1000..MAX_ADDR).step_by(0x2000) {
        assert!((set.map(MemoryArea::new(start.into(), 0x1000, 2, DummyBackend), &mut pt, false,))
            .is_ok());
    }
    dump_memory_set(&set);
    assert_eq!(set.len(), 16);
    for addr in 0..MAX_ADDR {
        assert!(pt[addr] == 1 || pt[addr] == 2);
    }

    // Found [0x4000, 0x5000), flags = 1.
    let area = set.find(0x4100.into()).unwrap();
    assert_eq!(area.start(), 0x4000.into());
    assert_eq!(area.end(), 0x5000.into());
    assert_eq!(area.flags(), 1);
    assert_eq!(pt[0x4200], 1);

    // The area [0x4000, 0x8000) is already mapped, map returns an error.
    assert_eq!(
        (set.map(MemoryArea::new(0x4000.into(), 0x4000, 3, DummyBackend), &mut pt, false)).err(),
        Some(MappingError::AlreadyExists)
    );
    // Unmap overlapped areas before adding the new mapping [0x4000, 0x8000).
    assert!((set.map(MemoryArea::new(0x4000.into(), 0x4000, 3, DummyBackend), &mut pt, true))
        .is_ok());
    dump_memory_set(&set);
    assert_eq!(set.len(), 13);

    // Found [0x4000, 0x8000), flags = 3.
    let area = set.find(0x4100.into()).unwrap();
    assert_eq!(area.start(), 0x4000.into());
    assert_eq!(area.end(), 0x8000.into());
    assert_eq!(area.flags(), 3);
    for addr in 0x4000..0x8000 {
        assert_eq!(pt[addr], 3);
    }

    // Unmap areas in the middle.
    assert!((set.unmap(0x4000.into(), 0x8000, &mut pt)).is_ok());
    assert_eq!(set.len(), 8);
    // Unmap the remaining areas, including the unmapped ranges.
    assert!((set.unmap(0.into(), MAX_ADDR * 2, &mut pt)).is_ok());
    assert_eq!(set.len(), 0);
    for addr in 0..MAX_ADDR {
        assert_eq!(pt[addr], 0);
    }
}

#[test]
fn test_unmap_split() {
    let mut set = DummyMemorySet::new();
    let mut pt = [0; MAX_ADDR];

    // Map [0, 0x1000), [0x2000, 0x3000), [0x4000, 0x5000), ...
    for start in (0..MAX_ADDR).step_by(0x2000) {
        assert!((set.map(MemoryArea::new(start.into(), 0x1000, 1, DummyBackend), &mut pt, false,))
            .is_ok());
    }
    assert_eq!(set.len(), 8);

    // Unmap [0xc00, 0x2400), [0x2c00, 0x4400), [0x4c00, 0x6400), ...
    // The areas are shrinked at the left and right boundaries.
    for start in (0..MAX_ADDR).step_by(0x2000) {
        assert!((set.unmap((start + 0xc00).into(), 0x1800, &mut pt)).is_ok());
    }
    dump_memory_set(&set);
    assert_eq!(set.len(), 8);

    for area in set.iter() {
        if area.start().as_usize() == 0 {
            assert_eq!(area.size(), 0xc00);
        } else {
            assert_eq!(area.start().align_offset_4k(), 0x400);
            assert_eq!(area.end().align_offset_4k(), 0xc00);
            assert_eq!(area.size(), 0x800);
        }
        for addr in area.start().as_usize()..area.end().as_usize() {
            assert_eq!(pt[addr], 1);
        }
    }

    // Unmap [0x800, 0x900), [0x2800, 0x4400), [0x4800, 0x4900), ...
    // The areas are split into two areas.
    for start in (0..MAX_ADDR).step_by(0x2000) {
        assert!((set.unmap((start + 0x800).into(), 0x100, &mut pt)).is_ok());
    }
    dump_memory_set(&set);
    assert_eq!(set.len(), 16);

    for area in set.iter() {
        let off = area.start().align_offset_4k();
        if off == 0 {
            assert_eq!(area.size(), 0x800);
        } else if off == 0x400 {
            assert_eq!(area.size(), 0x400);
        } else if off == 0x900 {
            assert_eq!(area.size(), 0x300);
        } else {
            unreachable!();
        }
        for addr in area.start().as_usize()..area.end().as_usize() {
            assert_eq!(pt[addr], 1);
        }
    }
    let mut iter = set.iter();
    while let Some(area) = iter.next() {
        if let Some(next) = iter.next() {
            for addr in area.end().as_usize()..next.start().as_usize() {
                assert_eq!(pt[addr], 0);
            }
        }
    }
    drop(iter);

    // Unmap all areas.
    assert!((set.unmap(0.into(), MAX_ADDR, &mut pt)).is_ok());
    assert_eq!(set.len(), 0);
    for addr in 0..MAX_ADDR {
        assert_eq!(pt[addr], 0);
    }
}

#[test]
fn areas_stay_in_the_order_of_their_addresses() {
    let mut set = DummyMemorySet::new();
    let mut pt = [0; MAX_ADDR];
    assert!(set.is_empty());
    for start in [0x3000usize, 0x1000, 0x5000, 0x0, 0x2000] {
        assert_eq!(set.map(MemoryArea::new(start.into(), 0x800, 7, DummyBackend), &mut pt, false), Ok(()));
    }
    assert_eq!(
        areas_of(&set),
        vec![(0x0, 0x800, 7), (0x1000, 0x1800, 7), (0x2000, 0x2800, 7), (0x3000, 0x3800, 7), (0x5000, 0x5800, 7)]
    );
    assert!(!set.is_empty());
}

#[test]
fn unmap_shrinks_splits_and_removes() {
    let mut set = DummyMemorySet::new();
    let mut pt = [0; MAX_ADDR];
    set.map(MemoryArea::new(0x1000.into(), 0x1000, 1, DummyBackend), &mut pt, false).unwrap();
    set.map(MemoryArea::new(0x2000.into(), 0x1000, 2, DummyBackend), &mut pt, false).unwrap();
    set.map(MemoryArea::new(0x4000.into(), 0x1000, 3, DummyBackend), &mut pt, false).unwrap();
    assert_eq!(set.unmap(0x1800.into(), 0x2c00, &mut pt), Ok(()));
    assert_eq!(areas_of(&set), vec![(0x1000, 0x1800, 1), (0x4400, 0x5000, 3)]);
    assert_eq!(set.unmap(0x4800.into(), 0x100, &mut pt), Ok(()));
    assert_eq!(areas_of(&set), vec![(0x1000, 0x1800, 1), (0x4400, 0x4800, 3), (0x4900, 0x5000, 3)]);
    assert_eq!(set.unmap(0x1800.into(), 0x2c00, &mut pt), Ok(()));
    assert_eq!(set.unmap(0x4000.into(), 0, &mut pt), Ok(()));
    assert_eq!(set.unmap(0x4600.into(), 0, &mut pt), Ok(()));
    assert_eq!(areas_of(&set), vec![(0x1000, 0x1800, 1), (0x4400, 0x4800, 3), (0x4900, 0x5000, 3)]);
    assert_eq!(set.unmap(0x1000.into(), usize::MAX, &mut pt), Err(MappingError::InvalidParam));
    assert_eq!(set.len(), 3);
    for addr in 0..MAX_ADDR {
        let expected = match addr {
            0x1000..=0x17ff => 1,
            0x4400..=0x47ff | 0x4900..=0x4fff => 3,
            _ => 0,
        };
        assert_eq!(pt[addr], expected);
    }
    assert_eq!(set.clear(&mut pt), Ok(()));
    assert!(set.is_empty());
    assert!(pt.iter().all(|entry| *entry == 0));
    assert_eq!(set.clear(&mut pt), Ok(()));
}

#[test]
fn map_refuses_empty_and_clashing_areas() {
    let mut set = DummyMemorySet::new();
    let mut pt = [0; MAX_ADDR];
    assert_eq!(set.map(MemoryArea::new(0x1000.into(), 0, 1, DummyBackend), &mut pt, false), Err(MappingError::InvalidParam));
    assert_eq!(set.map(MemoryArea::new(0x1000.into(), 0, 1, DummyBackend), &mut pt, true), Err(MappingError::InvalidParam));
    set.map(MemoryArea::new(0x1000.into(), 0x1000, 1, DummyBackend), &mut pt, false).unwrap();
    for (start, size) in [(0x1000usize, 0x1000usize), (0x800, 0x801), (0x1fff, 0x1), (0x0, 0x8000), (0x1400, 0x10)] {
        assert_eq!(
            set.map(MemoryArea::new(start.into(), size, 2, DummyBackend), &mut pt, false),
            Err(MappingError::AlreadyExists)
        );
    }
    assert_eq!(areas_of(&set), vec![(0x1000, 0x2000, 1)]);
    assert_eq!(set.map(MemoryArea::new(0x800.into(), 0x800, 2, DummyBackend), &mut pt, false), Ok(()));
    assert_eq!(set.map(MemoryArea::new(0x2000.into(), 0x1, 2, DummyBackend), &mut pt, false), Ok(()));
    assert_eq!(set.map(MemoryArea::new(0x1800.into(), 0x400, 9, DummyBackend), &mut pt, true), Ok(()));
    assert_eq!(
        areas_of(&set),
        vec![(0x800, 0x1000, 2), (0x1000, 0x1800, 1), (0x1800, 0x1c00, 9), (0x1c00, 0x2000, 1), (0x2000, 0x2001, 2)]
    );
    assert_eq!(pt[0x17ff], 1);
    assert_eq!(pt[0x1800], 9);
    assert_eq!(pt[0x1c00], 1);
}

#[test]
fn failing_backend_leaves_a_bad_state() {
    let mut set = DummyMemorySet::new();
    let mut pt = [0; MAX_ADDR];
    pt[0x1100] = 5;
    assert_eq!(set.map(MemoryArea::new(0x1000.into(), 0x1000, 1, DummyBackend), &mut pt, false), Err(MappingError::BadState));
    assert!(set.is_empty());
    let mut pt = [0; MAX_ADDR];
    set.map(MemoryArea::new(0x1000.into(), 0x1000, 1, DummyBackend), &mut pt, false).unwrap();
    set.map(MemoryArea::new(0x3000.into(), 0x1000, 2, DummyBackend), &mut pt, false).unwrap();
    pt[0x3400] = 0;
    assert_eq!(set.unmap(0x1800.into(), 0x2000, &mut pt), Err(MappingError::BadState));
    assert_eq!(areas_of(&set), vec![(0x1000, 0x1800, 1), (0x3000, 0x4000, 2)]);
    assert_eq!(set.clear(&mut pt), Err(MappingError::BadState));
    assert_eq!(set.len(), 2);
    assert!(set.overlaps((0x17ff..0x1801).into()));
    assert!(!set.overlaps((0x1800..0x3000).into()));
    assert!(set.find(0x1800.into()).is_none());
    assert_eq!(set.find(0x3fff.into()).unwrap().flags(), 2);
}
