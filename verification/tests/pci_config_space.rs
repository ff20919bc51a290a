use hv_device::capability::{CapabilityDummy, CapabilityEnum, CapabilityMsi, CapabilityPcie};
use hv_device::capability_map::CapabilityMap;
use hv_device::device::PortIoDevice;
use hv_device::error::HyperError;
use hv_device::pci::PCIConfigurationSpace;
use hv_device::pci_dev::PCIDevice;
use hv_device::pci_registry::{decode_bdf, make_bdf, make_selector, PciRegistry};

fn network_card() -> PCIDevice {
    let mut capabilities = CapabilityMap::new();
    capabilities
        .insert(
            0xc8,
            0xd0,
            CapabilityEnum::CapabilityDummy(CapabilityDummy {
                id: 0x01,
                next_region: 0xd0,
                unknown1: [0x0, 0x0],
                unknown2: [0x0, 0x0, 0x0, 0x0],
            }),
        )
        .unwrap();
    capabilities
        .insert(
            0xd0,
            0xe0,
            CapabilityEnum::CapabilityMsi(CapabilityMsi {
                id: 0x05,
                next_region: 0xe0,
                message_control: 0x80,
                message_address: 0x0,
                message_upper_address: 0x0,
                message_data: 0x0,
                reserved: [0, 0],
            }),
        )
        .unwrap();
    capabilities
        .insert(
            0xe0,
            0xe8,
            CapabilityEnum::CapabilityPcie(CapabilityPcie {
                id: 0x10,
                next_region: 0x0,
                control: 0x91,
                unknown1: 0x8000,
                unknown2: 0x0,
            }),
        )
        .unwrap();
    PCIDevice {
        vendor_id: 0x8086,
        device_id: 0x10d3,
        command: 0x103,
        status: 0x10,
        revision_id_class_code: [0x0, 0, 0, 0x2],
        cacheline_size: 0x0,
        latency_timer: 0x0,
        header_type: 0x0,
        bist: 0x0,
        bar: [0xfeb80000, 0xfeba0000, 0xc0c1, 0xfebd0000, 0x0, 0x0],
        cardbus_cis_pointer: 0x0,
        subsystem_vendor_id: 0x8086,
        subsystem_id: 0x0,
        expansion_rom_base_address: 0xfeb40000,
        capabilities_pointer: 0xc8,
        _reserved1: 0x0,
        _reserved2: 0x0,
        interrupt_line: 0xb,
        interrupt_pin: 0x1,
        min_gnt: 0x0,
        max_lat: 0x0,
        capabilities,
        bar_size: [0xfffe0000, 0xfffe0000, 0xffffffe1, 0xffffc000, 0x0, 0x0],
        expansion_rom_base_address_size: 0xfffc0000,
        num_msix_vectors: 0,
        msix_region_size: 0x0,
        msix_address: 0x0,
        bus: 0,
        slot: 0x2,
        func: 0x0,
    }
}

fn controller() -> PCIConfigurationSpace {
    let mut pci = PCIConfigurationSpace::new(0xcf8, 8);
    pci.register_device(network_card()).unwrap();
    pci
}

fn guest_read(pci: &mut PCIConfigurationSpace, offset: u8, size: u8) -> u32 {
    let selector = make_selector(0, 2, 0, offset).unwrap();
    pci.write(0xcf8, 4, selector).unwrap();
    pci.read(0xcfc + (offset & 3) as u16, size).unwrap()
}

fn guest_write(pci: &mut PCIConfigurationSpace, offset: u8, size: u8, value: u32) {
    let selector = make_selector(0, 2, 0, offset).unwrap();
    pci.write(0xcf8, 4, selector).unwrap();
    pci.write(0xcfc + (offset & 3) as u16, size, value).unwrap();
}

#[test]
fn bar_probe_reads_back_size_mask() {
    let mut pci = controller();
    let selector = make_selector(0, 2, 0, 0x10).unwrap();
    assert_eq!(selector, 0x8000_1010);
    assert_eq!(pci.write(0xcf8, 4, selector), Ok(()));
    assert_eq!(pci.write(0xcfc, 4, 0xffff_ffff), Ok(()));
    assert_eq!(pci.write(0xcf8, 4, selector), Ok(()));
    assert_eq!(pci.read(0xcfc, 4), Ok(0xfffe_0000));
}

#[test]
fn bar_probe_with_low_bits_clear_reads_back_size_mask() {
    let mut pci = controller();
    guest_write(&mut pci, 0x18, 4, 0xffff_f800);
    assert_eq!(guest_read(&mut pci, 0x18, 4), 0xffff_ffe1);
    guest_write(&mut pci, 0x24, 4, 0xffff_ffff);
    assert_eq!(guest_read(&mut pci, 0x24, 4), 0x0);
}

#[test]
fn bar_keeps_an_address_that_is_no_probe() {
    let mut pci = controller();
    guest_write(&mut pci, 0x10, 4, 0xfe00_0000);
    assert_eq!(guest_read(&mut pci, 0x10, 4), 0xfe00_0000);
    assert_eq!(pci.registry().get(0x1000).unwrap().bar[0], 0xfe00_0000);
}

#[test]
fn probe_value_outside_the_bars_is_stored() {
    let mut pci = controller();
    guest_write(&mut pci, 0x28, 4, 0xffff_ffff);
    assert_eq!(guest_read(&mut pci, 0x28, 4), 0xffff_ffff);
    guest_write(&mut pci, 0x0c, 4, 0xffff_f800);
    assert_eq!(guest_read(&mut pci, 0x0c, 4), 0xffff_f800);
}

#[test]
fn narrow_probe_values_are_stored_in_a_bar() {
    let mut pci = controller();
    guest_write(&mut pci, 0x10, 2, 0xffff_ffff);
    assert_eq!(guest_read(&mut pci, 0x10, 4), 0xfeb8_ffff);
}

#[test]
fn unregistered_device_reads_all_ones() {
    let mut pci = controller();
    let selector = make_selector(1, 1, 1, 0x00).unwrap();
    assert_eq!(pci.write(0xcf8, 4, selector), Ok(()));
    assert_eq!(pci.read(0xcfc, 1), Ok(0xff));
    assert_eq!(pci.write(0xcf8, 4, selector), Ok(()));
    assert_eq!(pci.read(0xcfc, 2), Ok(0xffff));
    assert_eq!(pci.write(0xcf8, 4, selector), Ok(()));
    assert_eq!(pci.read(0xcfc, 4), Ok(0xffff_ffff));
    let selector = make_selector(1, 1, 1, 0x44).unwrap();
    assert_eq!(pci.write(0xcf8, 4, selector), Ok(()));
    assert_eq!(pci.read(0xcfc, 4), Ok(0xffff_ffff));
}

#[test]
fn write_to_unregistered_device_is_dropped() {
    let mut pci = controller();
    let selector = make_selector(1, 1, 1, 0x04).unwrap();
    pci.write(0xcf8, 4, selector).unwrap();
    assert_eq!(pci.write(0xcfc, 4, 0x1234_5678), Ok(()));
    assert_eq!(pci.pending_selector(), None);
    assert!(!pci.registry().contains(make_bdf(1, 1, 1).unwrap()));
    assert_eq!(guest_read(&mut pci, 0x04, 4), 0x0010_0103);
}

#[test]
fn header_fields_read_little_endian() {
    let mut pci = controller();
    assert_eq!(guest_read(&mut pci, 0x00, 4), 0x10d3_8086);
    assert_eq!(guest_read(&mut pci, 0x02, 2), 0x10d3);
    assert_eq!(guest_read(&mut pci, 0x01, 1), 0x80);
    assert_eq!(guest_read(&mut pci, 0x0b, 1), 0x02);
    assert_eq!(guest_read(&mut pci, 0x3c, 4), 0x0000_010b);
    assert_eq!(guest_read(&mut pci, 0x34, 1), 0xc8);
}

#[test]
fn word_access_ignores_the_lowest_port_bit() {
    let mut pci = controller();
    let selector = make_selector(0, 2, 0, 0x00).unwrap();
    pci.write(0xcf8, 4, selector).unwrap();
    assert_eq!(pci.read(0xcfd, 2), Ok(0x8086));
    pci.write(0xcf8, 4, selector).unwrap();
    assert_eq!(pci.read(0xcff, 2), Ok(0x10d3));
    pci.write(0xcf8, 4, selector).unwrap();
    assert_eq!(pci.read(0xcff, 4), Ok(0x10d3_8086));
}

#[test]
fn header_write_is_read_back_at_every_offset_and_size() {
    for offset in 0u8..0x40 {
        for size in [1u8, 2, 4] {
            if offset % size != 0 {
                continue;
            }
            let value: u32 = 0xa5c3_0f00 | offset as u32;
            let mut pci = controller();
            guest_write(&mut pci, offset, size, value);
            let expected = match size {
                1 => value & 0xff,
                2 => value & 0xffff,
                _ => value,
            };
            assert_eq!(guest_read(&mut pci, offset, size), expected);
        }
    }
}

#[test]
fn capability_write_is_read_back() {
    let mut pci = controller();
    guest_write(&mut pci, 0xd4, 4, 0xfee0_1004);
    assert_eq!(guest_read(&mut pci, 0xd4, 4), 0xfee0_1004);
    guest_write(&mut pci, 0xd2, 2, 0xabcd_0081);
    assert_eq!(guest_read(&mut pci, 0xd2, 2), 0x0081);
    guest_write(&mut pci, 0xcb, 1, 0x7f);
    assert_eq!(guest_read(&mut pci, 0xcb, 1), 0x7f);
    assert_eq!(guest_read(&mut pci, 0xc8, 4), 0x7f00_d001);
    guest_write(&mut pci, 0xde, 2, 0x55aa);
    assert_eq!(guest_read(&mut pci, 0xde, 2), 0x55aa);
    match pci.registry().get(0x1000).unwrap().find_capability(0xd0) {
        Some(CapabilityEnum::CapabilityMsi(msi)) => {
            assert_eq!(msi.message_address, 0xfee0_1004);
            assert_eq!(msi.message_control, 0x0081);
            assert_eq!(msi.reserved, [0xaa, 0x55]);
        }
        _ => panic!("the MSI capability is gone"),
    }
}

#[test]
fn capability_reads_its_fields() {
    let mut pci = controller();
    assert_eq!(guest_read(&mut pci, 0xd0, 4), 0x0080_e005);
    assert_eq!(guest_read(&mut pci, 0xd1, 1), 0xe0);
    assert_eq!(guest_read(&mut pci, 0xe0, 4), 0x0091_0010);
    assert_eq!(guest_read(&mut pci, 0xe4, 4), 0x0000_8000);
}

#[test]
fn offset_outside_every_capability_reads_all_ones() {
    let mut pci = controller();
    assert_eq!(guest_read(&mut pci, 0x40, 4), 0xffff_ffff);
    assert_eq!(guest_read(&mut pci, 0xc7, 1), 0xff);
    assert_eq!(guest_read(&mut pci, 0xe8, 2), 0xffff);
    guest_write(&mut pci, 0x40, 4, 0x1234_5678);
    assert_eq!(guest_read(&mut pci, 0x40, 4), 0xffff_ffff);
}

#[test]
fn range_shorter_than_capability_ends_the_capability() {
    let mut pci = controller();
    assert_eq!(guest_read(&mut pci, 0xe8, 4), 0xffff_ffff);
    assert_eq!(guest_read(&mut pci, 0xe7, 1), 0x00);
}

#[test]
fn second_address_write_replaces_the_first() {
    let mut pci = controller();
    let first = make_selector(0, 2, 0, 0x00).unwrap();
    let second = make_selector(0, 2, 0, 0x08).unwrap();
    pci.write(0xcf8, 4, first).unwrap();
    assert_eq!(pci.pending_selector(), Some(first));
    pci.write(0xcf8, 4, second).unwrap();
    assert_eq!(pci.pending_selector(), Some(second));
    assert_eq!(pci.read(0xcfc, 4), Ok(0x0200_0000));
    pci.write(0xcf8, 4, 0xffff_ffff).unwrap();
    pci.write(0xcfa, 2, 0x1234).unwrap();
    assert_eq!(pci.pending_selector(), Some(0x1234));
}

#[test]
fn data_access_without_address_write_reads_all_ones() {
    let mut pci = controller();
    assert_eq!(pci.read(0xcfc, 1), Ok(0xff));
    assert_eq!(pci.read(0xcfe, 2), Ok(0xffff));
    assert_eq!(pci.read(0xcfc, 4), Ok(0xffff_ffff));
    assert_eq!(pci.write(0xcfc, 4, 0xdead_beef), Ok(()));
    assert_eq!(guest_read(&mut pci, 0x00, 4), 0x10d3_8086);
}

#[test]
fn data_access_consumes_the_selector() {
    let mut pci = controller();
    let selector = make_selector(0, 2, 0, 0x00).unwrap();
    pci.write(0xcf8, 4, selector).unwrap();
    assert_eq!(pci.read(0xcfc, 4), Ok(0x10d3_8086));
    assert_eq!(pci.pending_selector(), None);
    assert_eq!(pci.read(0xcfc, 4), Ok(0xffff_ffff));
    pci.write(0xcf8, 4, selector).unwrap();
    pci.write(0xcfc, 2, 0x1111).unwrap();
    assert_eq!(pci.write(0xcfc, 2, 0x2222), Ok(()));
    assert_eq!(guest_read(&mut pci, 0x00, 2), 0x1111);
}

#[test]
fn address_window_reads_tell_that_no_bridge_is_there() {
    let mut pci = controller();
    assert_eq!(pci.read(0xcf8, 1), Ok(0xfe));
    assert_eq!(pci.read(0xcf8, 2), Ok(0xfffe));
    assert_eq!(pci.read(0xcf9, 4), Ok(0xffff_fffe));
    assert_eq!(pci.read(0xcfb, 1), Ok(0xfe));
}

#[test]
fn address_probe_reads_the_mechanism_pattern() {
    let mut pci = controller();
    assert_eq!(pci.read(0xcf8, 4), Ok(0x8000_0000));
    let selector = make_selector(0, 2, 0, 0x00).unwrap();
    pci.write(0xcf8, 4, selector).unwrap();
    assert_eq!(pci.read(0xcf8, 4), Ok(0x8000_0000));
    assert_eq!(pci.pending_selector(), Some(selector));
}

#[test]
fn invalid_access_size_is_refused() {
    let mut pci = controller();
    assert_eq!(pci.read(0xcf8, 3), Err(HyperError::InvalidParam));
    assert_eq!(pci.read(0xcfc, 0), Err(HyperError::InvalidParam));
    assert_eq!(pci.write(0xcfc, 8, 0), Err(HyperError::InvalidParam));
    let selector = make_selector(0, 2, 0, 0x00).unwrap();
    pci.write(0xcf8, 4, selector).unwrap();
    assert_eq!(pci.write(0xcf8, 5, 0), Err(HyperError::InvalidParam));
    assert_eq!(pci.read(0xcfc, 3), Err(HyperError::InvalidParam));
    assert_eq!(pci.pending_selector(), Some(selector));
}

#[test]
fn port_outside_the_windows_is_refused() {
    let mut pci = controller();
    assert_eq!(pci.read(0xcf7, 1), Err(HyperError::InvalidParam));
    assert_eq!(pci.read(0xd00, 4), Err(HyperError::InvalidParam));
    assert_eq!(pci.write(0xd00, 4, 1), Err(HyperError::InvalidParam));
    assert_eq!(pci.write(0x0, 1, 1), Err(HyperError::InvalidParam));
}

#[test]
fn port_range_spans_the_claimed_ports() {
    let pci = PCIConfigurationSpace::new(0xcf8, 8);
    assert_eq!(pci.port_range(), 0xcf8..0xd00);
    let pci = PCIConfigurationSpace::with_registry(0x1000, 4, PciRegistry::new());
    assert_eq!(pci.port_range(), 0x1000..0x1004);
}

#[test]
fn windows_follow_the_base() {
    let mut registry = PciRegistry::new();
    registry.register(network_card()).unwrap();
    let mut pci = PCIConfigurationSpace::with_registry(0x2000, 8, registry);
    let selector = make_selector(0, 2, 0, 0x00).unwrap();
    assert_eq!(pci.read(0x2000, 4), Ok(0x8000_0000));
    pci.write(0x2000, 4, selector).unwrap();
    assert_eq!(pci.read(0x2006, 2), Ok(0x10d3));
    assert_eq!(pci.read(0xcfc, 4), Err(HyperError::InvalidParam));
}

#[test]
fn selector_round_trip() {
    for bus in [0u32, 1, 0x7f, 0xff] {
        for slot in [0u32, 2, 0x1f] {
            for func in [0u32, 3, 7] {
                for offset in [0u8, 0x10, 0x3d, 0xfe, 0xff] {
                    let selector = make_selector(bus, slot, func, offset).unwrap();
                    assert_eq!(decode_bdf(selector), (bus, slot, func));
                    assert_eq!(selector & 0x00ff_ff00, make_bdf(bus, slot, func).unwrap());
                    assert_eq!(selector & 0xff, (offset & 0xfc) as u32);
                }
            }
        }
    }
    assert_eq!(make_bdf(0, 2, 0), Some(0x1000));
    assert_eq!(make_bdf(1, 1, 1), Some(0x0001_0900));
    assert_eq!(make_bdf(0xff, 0x1f, 7), Some(0x00ff_ff00));
    assert_eq!(make_selector(0, 0x1f, 2, 0x41), Some(0x8000_fa40));
    assert_eq!(decode_bdf(0xffff_ffff), (0xff, 0x1f, 7));
}

#[test]
fn numbers_that_do_not_fit_make_no_selector() {
    assert_eq!(make_bdf(0x100, 0, 0), None);
    assert_eq!(make_bdf(0, 0x20, 0), None);
    assert_eq!(make_bdf(0, 0, 8), None);
    assert_eq!(make_selector(0, 0x20, 0, 0), None);
}

#[test]
fn registration_refuses_what_does_not_fit() {
    let mut registry = PciRegistry::new();
    assert_eq!(registry.register(network_card()), Ok(()));
    assert!(registry.contains(0x1000));
    assert_eq!(registry.register(network_card()), Err(HyperError::OutOfRange));
    let mut wide = network_card();
    wide.slot = 0x20;
    assert_eq!(registry.register(wide), Err(HyperError::InvalidParam));
    let mut dangling = network_card();
    dangling.func = 1;
    dangling.capabilities_pointer = 0xc0;
    assert_eq!(registry.register(dangling), Err(HyperError::BadState));
    let mut broken = network_card();
    broken.func = 2;
    broken
        .update_capability_map(
            0xa0,
            0xa8,
            CapabilityEnum::CapabilityDummy(CapabilityDummy {
                id: 0x12,
                next_region: 0x50,
                unknown1: [0, 0],
                unknown2: [0, 0, 0, 0],
            }),
        )
        .unwrap();
    assert_eq!(registry.register(broken), Err(HyperError::BadState));
    assert!(!registry.contains(0x1100));
    assert!(!registry.contains(0x1200));
    let mut sibling = network_card();
    sibling.func = 3;
    assert_eq!(registry.register(sibling), Ok(()));
    assert!(registry.contains(0x1300));
}

#[test]
fn registry_reads_and_writes_by_key() {
    let mut registry = PciRegistry::new();
    registry.register(network_card()).unwrap();
    assert_eq!(registry.read_config(0x1000, 0x00, 2), Ok(0x8086));
    assert_eq!(registry.read_config(0x1100, 0x00, 2), Ok(0xffff));
    assert_eq!(registry.read_config(0x1000, 0x00, 3), Err(HyperError::InvalidParam));
    assert_eq!(registry.write_config(0x1000, 0x04, 2, 0x0007), Ok(()));
    assert_eq!(registry.get(0x1000).unwrap().command, 0x0007);
    assert_eq!(registry.write_config(0x1000, 0x04, 0, 0x0000), Err(HyperError::InvalidParam));
    assert_eq!(registry.get(0x1000).unwrap().command, 0x0007);
    assert_eq!(registry.write_config(0x1100, 0x04, 2, 0x0007), Ok(()));
    assert!(registry.get(0x1100).is_none());
}
