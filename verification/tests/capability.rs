use hv_device::capability::{
    Capability9, CapabilityDummy, CapabilityEnum, CapabilityMsi, CapabilityMsix, CapabilityPcie,
};
use hv_device::capability_map::CapabilityMap;
use hv_device::error::HyperError;
use hv_device::pci_dev::PCIDevice;
use hv_device::rw_struct::{
    read_u16, read_u32, read_u8, write_u16, write_u32, write_u8, ReadWriteStruct,
};

fn msix() -> CapabilityMsix {
    CapabilityMsix { id: 0x11, next_region: 0x84, message_control: 0x0201, table: 0x0403_0201, pba: 0x8877_6655 }
}

fn dummy(next_region: u8) -> CapabilityEnum {
    CapabilityEnum::CapabilityDummy(CapabilityDummy {
        id: 0x01,
        next_region,
        unknown1: [0xa1, 0xa2],
        unknown2: [0xb1, 0xb2, 0xb3, 0xb4],
    })
}

fn blank_device() -> PCIDevice {
    PCIDevice {
        vendor_id: 0x1af4,
        device_id: 0x1001,
        command: 0x107,
        status: 0x10,
        revision_id_class_code: [0x0, 0, 0, 0x1],
        cacheline_size: 0x0,
        latency_timer: 0x0,
        header_type: 0x0,
        bist: 0x0,
        bar: [0xc001, 0xfebd5000, 0x0, 0x0, 0xfe00000c, 0x0],
        cardbus_cis_pointer: 0x0,
        subsystem_vendor_id: 0x1af4,
        subsystem_id: 0x2,
        expansion_rom_base_address: 0x0,
        capabilities_pointer: 0x0,
        _reserved1: 0x0,
        _reserved2: 0x0,
        interrupt_line: 0xb,
        interrupt_pin: 0x1,
        min_gnt: 0x0,
        max_lat: 0x0,
        capabilities: CapabilityMap::new(),
        bar_size: [0xffffff81, 0xfffff000, 0x0, 0x0, 0xffffc00c, 0xffffffff],
        expansion_rom_base_address_size: 0x0,
        num_msix_vectors: 2,
        msix_region_size: 0x1000,
        msix_address: 0xfebda000,
        bus: 0,
        slot: 0x3,
        func: 0x0,
    }
}

#[test]
fn structure_sizes() {
    assert_eq!(CapabilityMsix::struct_size(), 12);
    assert_eq!(CapabilityMsi::struct_size(), 16);
    assert_eq!(CapabilityPcie::struct_size(), 12);
    assert_eq!(CapabilityDummy::struct_size(), 8);
    assert_eq!(Capability9::struct_size(), 9);
    assert_eq!(CapabilityEnum::struct_size(), 0);
    assert_eq!(PCIDevice::struct_size(), 0x40);
    assert_eq!(CapabilityEnum::CapabilityMsix(msix()).payload_size(), 12);
    assert_eq!(dummy(0).payload_size(), 8);
    assert_eq!(dummy(0x50).next_region(), 0x50);
}

#[test]
fn msix_image_is_little_endian() {
    let cap = msix();
    assert_eq!(
        cap.read_bytes(0, 12),
        vec![0x11, 0x84, 0x01, 0x02, 0x01, 0x02, 0x03, 0x04, 0x55, 0x66, 0x77, 0x88]
    );
    assert_eq!(cap.read_bytes(3, 3), vec![0x02, 0x01, 0x02]);
    assert_eq!(cap.read_bytes(12, 0), Vec::<u8>::new());
    assert_eq!(read_u8(&cap, 1), 0x84);
    assert_eq!(read_u16(&cap, 2), 0x0201);
    assert_eq!(read_u16(&cap, 3), 0x0102);
    assert_eq!(read_u32(&cap, 8), 0x8877_6655);
    assert_eq!(read_u32(&cap, 6), 0x6655_0403);
}

#[test]
fn msix_write_changes_the_fields_it_covers() {
    let mut cap = msix();
    write_u16(&mut cap, 2, 0xbeef);
    assert_eq!(cap.message_control, 0xbeef);
    write_u32(&mut cap, 6, 0x1122_3344);
    assert_eq!(cap.table, 0x3344_0201);
    assert_eq!(cap.pba, 0x8877_1122);
    write_u8(&mut cap, 0, 0x7f);
    assert_eq!(cap.id, 0x7f);
    assert_eq!(cap.next_region, 0x84);
    cap.write_bytes(10, &[0xaa, 0xbb]);
    assert_eq!(cap.pba, 0xbbaa_1122);
    cap.write_bytes(4, &[]);
    assert_eq!(cap.table, 0x3344_0201);
}

#[test]
fn msi_keeps_its_reserved_bytes() {
    let mut cap = CapabilityMsi {
        id: 0x05,
        next_region: 0xa8,
        message_control: 0x80,
        message_address: 0xfee0_1004,
        message_upper_address: 0x1,
        message_data: 0x4041,
        reserved: [0, 0],
    };
    assert_eq!(read_u32(&cap, 4), 0xfee0_1004);
    assert_eq!(read_u32(&cap, 12), 0x0000_4041);
    write_u32(&mut cap, 12, 0xdead_beef);
    assert_eq!(cap.message_data, 0xbeef);
    assert_eq!(cap.reserved, [0xad, 0xde]);
    assert_eq!(read_u32(&cap, 12), 0xdead_beef);
}

#[test]
fn opaque_capabilities_keep_every_byte() {
    let mut nine = Capability9 {
        id: 0x09,
        next_region: 0x40,
        unknown1: [0x10, 0x03],
        unknown2: [0x04, 0x00, 0x00, 0x00],
        unknown3: 0x77,
    };
    assert_eq!(nine.read_bytes(0, 9), vec![0x09, 0x40, 0x10, 0x03, 0x04, 0, 0, 0, 0x77]);
    write_u32(&mut nine, 5, 0x0102_0304);
    assert_eq!(nine.unknown2, [0x04, 0x04, 0x03, 0x02]);
    assert_eq!(nine.unknown3, 0x01);
    let mut pcie = CapabilityPcie { id: 0x10, next_region: 0xa0, control: 0x91, unknown1: 0x8000, unknown2: 0 };
    write_u16(&mut pcie, 2, 0x0142);
    assert_eq!(pcie.control, 0x0142);
    assert_eq!(read_u32(&pcie, 0), 0x0142_a010);
    let mut plain = CapabilityDummy { id: 1, next_region: 2, unknown1: [3, 4], unknown2: [5, 6, 7, 8] };
    assert_eq!(read_u32(&plain, 4), 0x0807_0605);
    write_u8(&mut plain, 7, 0xff);
    assert_eq!(plain.unknown2, [5, 6, 7, 0xff]);
}

#[test]
fn capability_of_any_kind_reads_as_its_kind() {
    let mut cap = CapabilityEnum::CapabilityMsix(msix());
    assert_eq!(read_u16(&cap, 2), 0x0201);
    write_u16(&mut cap, 2, 0x8000);
    match cap {
        CapabilityEnum::CapabilityMsix(inner) => assert_eq!(inner.message_control, 0x8000),
        _ => panic!("the capability changed its kind"),
    }
    let mut cap = dummy(0x50);
    write_u8(&mut cap, 1, 0x60);
    assert_eq!(cap.next_region(), 0x60);
    assert_eq!(cap.read_bytes(0, 8), vec![0x01, 0x60, 0xa1, 0xa2, 0xb1, 0xb2, 0xb3, 0xb4]);
}

#[test]
fn device_header_image() {
    let device = blank_device();
    assert_eq!(read_u16(&device, 0x00), 0x1af4);
    assert_eq!(read_u16(&device, 0x02), 0x1001);
    assert_eq!(read_u32(&device, 0x04), 0x0010_0107);
    assert_eq!(read_u32(&device, 0x08), 0x0100_0000);
    assert_eq!(read_u32(&device, 0x14), 0xfebd_5000);
    assert_eq!(read_u32(&device, 0x20), 0xfe00_000c);
    assert_eq!(read_u16(&device, 0x2c), 0x1af4);
    assert_eq!(read_u16(&device, 0x2e), 0x0002);
    assert_eq!(read_u8(&device, 0x3c), 0x0b);
    assert_eq!(read_u8(&device, 0x3d), 0x01);
    assert_eq!(device.read_bytes(0, 0x40).len(), 0x40);
    assert_eq!(device.read_bytes(0x3c, 4), vec![0x0b, 0x01, 0x00, 0x00]);
}

#[test]
fn device_header_write() {
    let mut device = blank_device();
    write_u16(&mut device, 0x04, 0x0006);
    assert_eq!(device.command, 0x0006);
    assert_eq!(device.status, 0x10);
    write_u32(&mut device, 0x1a, 0x1234_5678);
    assert_eq!(device.bar[2], 0x5678_0000);
    assert_eq!(device.bar[3], 0x0000_1234);
    write_u8(&mut device, 0x0b, 0x06);
    assert_eq!(device.revision_id_class_code, [0, 0, 0, 6]);
    device.write_bytes(0x34, &[0x98, 0x00, 0xff, 0xee]);
    assert_eq!(device.capabilities_pointer, 0x98);
    assert_eq!(device._reserved1, 0xeeff);
    assert_eq!(device.bar_size, [0xffffff81, 0xfffff000, 0x0, 0x0, 0xffffc00c, 0xffffffff]);
    assert_eq!(device.msix_address, 0xfebda000);
    assert_eq!(device.slot, 3);
}

#[test]
fn device_config_access() {
    let mut device = blank_device();
    device.update_capability_map(0x98, 0xa4, CapabilityEnum::CapabilityMsix(msix())).unwrap();
    assert_eq!(device.config_read(0x00, 4), Ok(0x1001_1af4));
    assert_eq!(device.config_read(0x9a, 2), Ok(0x0201));
    assert_eq!(device.config_read(0xa0, 4), Ok(0x8877_6655));
    assert_eq!(device.config_read(0xa4, 1), Ok(0xff));
    assert_eq!(device.config_read(0x3f, 2), Ok(0xffff));
    assert_eq!(device.config_read(0x3e, 4), Ok(0xffff_ffff));
    assert_eq!(device.config_read(0xa2, 4), Ok(0xffff_ffff));
    assert_eq!(device.config_read(0x00, 3), Err(HyperError::InvalidParam));
    assert_eq!(device.config_write(0x9a, 2, 0xffff_c003), Ok(()));
    assert_eq!(device.config_read(0x98, 4), Ok(0xc003_8411));
    assert_eq!(device.config_write(0x3f, 2, 0x1234), Ok(()));
    assert_eq!(device.max_lat, 0);
    assert_eq!(device.config_write(0xa2, 4, 0), Ok(()));
    assert_eq!(device.config_read(0xa0, 4), Ok(0x8877_6655));
    assert_eq!(device.config_write(0x10, 4, 0xffff_ffff), Ok(()));
    assert_eq!(device.bar[0], 0xffff_ff81);
    assert_eq!(device.config_write(0x11, 4, 0xffff_ffff), Ok(()));
    assert_eq!(read_u32(&device, 0x11), 0xffff_ffff);
    assert_eq!(device.config_write(0x10, 7, 0), Err(HyperError::InvalidParam));
}

#[test]
fn lookup_inside_and_outside_the_ranges() {
    let mut map = CapabilityMap::new();
    map.insert(0x50, 0x58, dummy(0x60)).unwrap();
    map.insert(0x40, 0x4c, CapabilityEnum::CapabilityMsix(msix())).unwrap();
    map.insert(0x60, 0x68, dummy(0)).unwrap();
    for offset in 0x50u8..0x58 {
        assert_eq!(map.find_range(offset), (0x50, 0x58));
        assert_eq!(map.find(offset).unwrap().next_region(), 0x60);
    }
    assert_eq!(map.find_range(0x40), (0x40, 0x4c));
    assert_eq!(map.find_range(0x4b), (0x40, 0x4c));
    assert!(matches!(map.find(0x44), Some(CapabilityEnum::CapabilityMsix(_))));
    for offset in [0x00u8, 0x3f, 0x4c, 0x4f, 0x58, 0x5f, 0x68, 0xff] {
        assert!(map.find(offset).is_none());
        assert_eq!(map.find_range(offset), (0xff, 0xff));
    }
    assert!(map.has_start(0x40));
    assert!(map.has_start(0x60));
    assert!(!map.has_start(0x41));
}

#[test]
fn insertion_refuses_what_would_overlap() {
    let mut map = CapabilityMap::new();
    assert_eq!(map.insert(0x50, 0x58, dummy(0)), Ok(()));
    assert_eq!(map.insert(0x57, 0x60, dummy(0)), Err(HyperError::BadState));
    assert_eq!(map.insert(0x48, 0x51, dummy(0)), Err(HyperError::BadState));
    assert_eq!(map.insert(0x40, 0xf0, dummy(0)), Err(HyperError::BadState));
    assert_eq!(map.insert(0x52, 0x54, dummy(0)), Err(HyperError::BadState));
    assert_eq!(map.insert(0x50, 0x57, dummy(0)), Err(HyperError::BadState));
    assert_eq!(map.insert(0x58, 0x58, dummy(0)), Err(HyperError::InvalidParam));
    assert_eq!(map.insert(0x60, 0x5f, dummy(0)), Err(HyperError::InvalidParam));
    assert_eq!(map.insert(0x3f, 0x48, dummy(0)), Err(HyperError::InvalidParam));
    assert_eq!(map.insert(0x00, 0x10, dummy(0)), Err(HyperError::InvalidParam));
    assert_eq!(map.insert(0x58, 0x60, dummy(0x50)), Ok(()));
    assert_eq!(map.insert(0x48, 0x50, dummy(0)), Ok(()));
    assert_eq!(map.insert(0x50, 0x58, dummy(0x58)), Ok(()));
    assert_eq!(map.find(0x50).unwrap().next_region(), 0x58);
    assert_eq!(map.find(0x58).unwrap().next_region(), 0x50);
    assert_eq!(map.find_range(0x4f), (0x48, 0x50));
}

#[test]
fn chain_is_closed_when_every_link_leads_somewhere() {
    let mut map = CapabilityMap::new();
    assert!(map.chain_closed(0));
    assert!(!map.chain_closed(0x40));
    map.insert(0x40, 0x48, dummy(0x50)).unwrap();
    assert!(!map.chain_closed(0x40));
    map.insert(0x50, 0x58, dummy(0)).unwrap();
    assert!(map.chain_closed(0x40));
    assert!(map.chain_closed(0x50));
    assert!(map.chain_closed(0));
    assert!(!map.chain_closed(0x48));
    assert!(!map.chain_closed(0x140));
    map.insert(0x50, 0x58, dummy(0x51)).unwrap();
    assert!(!map.chain_closed(0x40));
    map.insert(0x50, 0x58, dummy(0x40)).unwrap();
    assert!(map.chain_closed(0x40));
}

#[test]
fn device_capability_methods() {
    let mut device = blank_device();
    assert!(device.find_capability(0x98).is_none());
    assert_eq!(device.find_capability_range(0x98), (0xff, 0xff));
    assert_eq!(
        device.update_capability_map(0x98, 0xa4, CapabilityEnum::CapabilityMsix(msix())),
        Ok(())
    );
    assert_eq!(device.find_capability_range(0xa3), (0x98, 0xa4));
    let mut found = device.find_capability(0x9c).unwrap();
    write_u32(&mut found, 4, 0x1);
    assert_eq!(read_u32(&device.find_capability(0x9c).unwrap(), 4), 0x0403_0201);
    assert_eq!(device.update_capability_map(0x98, 0xa4, found), Ok(()));
    assert_eq!(read_u32(&device.find_capability(0x9c).unwrap(), 4), 0x1);
    assert_eq!(device.update_capability_map(0xa0, 0xa8, dummy(0)), Err(HyperError::BadState));
    assert_eq!(device.update_capability_map(0x30, 0x38, dummy(0)), Err(HyperError::InvalidParam));
    assert_eq!(device.vendor_id, 0x1af4);
    let copy = device.clone();
    assert_eq!(copy.find_capability_range(0x98), (0x98, 0xa4));
    assert_eq!(copy.device_id, 0x1001);
}
