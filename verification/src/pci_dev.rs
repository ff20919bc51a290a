//! A virtual PCI device: the standard configuration-space header, the
//! capabilities chained behind it, and what the emulation knows of the
//! device beside its configuration space.

use vstd::prelude::*;
use crate::bytes::{
    copy_range, le_u16, le_u32, lemma_le_u16_image, lemma_le_u32_image, lemma_u16_round_trip,
    lemma_u32_round_trip, lemma_value_round_trip, low_bytes, overwrite, splice, u16_from_le, u16_le, u16_to_le,
    u32_from_le, u32_le, u32_to_le, value_at, value_image,
};
use crate::capability::CapabilityEnum;
use crate::capability_map::{
    covering_key, covers, insertable, lemma_insert_keeps_ranges_valid, lemma_lookup_outside,
    lemma_replace_keeps_lookup, ranges_valid, valid_range, CapabilityMap, PCI_CONFIG_HEADER_END,
};
use crate::error::{all_ones, valid_access_size, HyperError};
use crate::rw_struct::{read_u16, read_u32, read_u8, write_u16, write_u32, write_u8, ReadWriteStruct};

verus! {

/// A value that, written to a base address register, asks for its size:
/// all ones but for the low eleven bits.
pub const BAR_WRITE_MASK0: u32 = 0xffff_f800;

/// A value that, written to a base address register, asks for its size:
/// all ones.
pub const BAR_WRITE_MASK1: u32 = 0xffff_ffff;

/// What a device is to the configuration-space controller.
pub struct DeviceView {
    /// The 0x40 bytes of the standard header.
    pub header: Seq<u8>,
    /// The capabilities, each under the range it occupies.
    pub capabilities: Map<(u8, u8), CapabilityEnum>,
    /// For each base address register, what a sizing probe reads back.
    pub bar_size: Seq<u32>,
    /// What a sizing probe of the expansion ROM reads back.
    pub expansion_rom_base_address_size: u32,
    /// Number of MSI-X vectors.
    pub num_msix_vectors: u16,
    /// Size of the MSI-X table region.
    pub msix_region_size: u16,
    /// Address of the MSI-X table region.
    pub msix_address: u64,
    /// Bus number.
    pub bus: u32,
    /// Slot (device) number.
    pub slot: u32,
    /// Function number.
    pub func: u32,
}

/// Whether `offset` is where one of the six base address registers starts.
pub open spec fn is_bar_offset(offset: u8) -> bool {
    0x10 <= offset <= 0x24 && offset % 4 == 0
}

/// Whether `value`, written to a base address register, asks for its size.
pub open spec fn is_bar_probe(value: u32) -> bool {
    value == BAR_WRITE_MASK0 || value == BAR_WRITE_MASK1
}

/// Whether an access of `size` bytes at `offset` lies in the standard
/// header.
pub open spec fn in_header(offset: u8, size: u8) -> bool {
    offset + size <= 0x40
}

/// The range of the capability that an access of `size` bytes at `offset`
/// falls into: the range contains the offset, and the capability's image
/// holds all the bytes accessed.
pub open spec fn capability_hit(
    capabilities: Map<(u8, u8), CapabilityEnum>,
    offset: u8,
    size: u8,
) -> Option<(u8, u8)> {
    match covering_key(capabilities, offset) {
        Some(k) => if offset - k.0 + size <= capabilities[k].bytes().len() {
            Some(k)
        } else {
            None
        },
        None => None,
    }
}

/// What an access of `size` bytes at configuration-space offset `offset`
/// reads from a device.
///
/// In the standard header it reads the header's bytes; behind it, the
/// bytes of the capability that the access falls into. Where the access
/// meets neither, it reads all ones.
pub open spec fn device_read(device: DeviceView, offset: u8, size: u8) -> u32
    recommends
        valid_access_size(size),
{
    if offset < 0x40 {
        if in_header(offset, size) {
            value_at(device.header, offset as int, size)
        } else {
            all_ones(size)
        }
    } else {
        match capability_hit(device.capabilities, offset, size) {
            Some(k) => value_at(device.capabilities[k].bytes(), offset - k.0, size),
            None => all_ones(size),
        }
    }
}

/// What the header holds after a write of the low `size` bytes of `value`
/// at `offset`, an access that lies in the header.
///
/// A 4-byte write of a sizing probe to a base address register stores the
/// register's size mask in place of the value.
pub open spec fn header_after_write(device: DeviceView, offset: u8, size: u8, value: u32) -> Seq<u8>
    recommends
        valid_access_size(size),
        in_header(offset, size),
{
    if size == 4 && is_bar_offset(offset) && is_bar_probe(value) {
        splice(device.header, offset as int, u32_le(device.bar_size[(offset - 0x10) / 4]))
    } else {
        splice(device.header, offset as int, value_image(value, size))
    }
}

/// The device after a write of the low `size` bytes of `value` at
/// configuration-space offset `offset`.
///
/// A write that meets neither the header nor a capability is dropped.
pub open spec fn device_write(device: DeviceView, offset: u8, size: u8, value: u32) -> DeviceView
    recommends
        valid_access_size(size),
{
    if offset < 0x40 {
        if in_header(offset, size) {
            DeviceView { header: header_after_write(device, offset, size, value), ..device }
        } else {
            device
        }
    } else {
        match capability_hit(device.capabilities, offset, size) {
            Some(k) => {
                let capability = device.capabilities[k];
                let image = splice(capability.bytes(), offset - k.0, value_image(value, size));
                DeviceView {
                    capabilities: device.capabilities.insert(k, capability.with_bytes(image)),
                    ..device
                }
            },
            None => device,
        }
    }
}

/// A device as the guest sees it in configuration space.
///
/// The fields up to `max_lat` are the standard header, in the order and
/// with the widths of its 0x40 bytes; they are the device's byte image.
/// The capabilities occupy ranges behind the header. The remaining fields
/// are not part of configuration space.
#[derive(Debug)]
pub struct PCIDevice {
    /// Vendor identifier, at offset 0x00.
    pub vendor_id: u16,
    /// Device identifier, at offset 0x02.
    pub device_id: u16,
    /// Command register, at offset 0x04.
    pub command: u16,
    /// Status register, at offset 0x06.
    pub status: u16,
    /// Revision identifier and class code, at offset 0x08.
    pub revision_id_class_code: [u8; 4],
    /// Cache line size, at offset 0x0c.
    pub cacheline_size: u8,
    /// Latency timer, at offset 0x0d.
    pub latency_timer: u8,
    /// Header type, at offset 0x0e.
    pub header_type: u8,
    /// Built-in self test, at offset 0x0f.
    pub bist: u8,
    /// The six base address registers, from offset 0x10.
    pub bar: [u32; 6],
    /// CardBus CIS pointer, at offset 0x28.
    pub cardbus_cis_pointer: u32,
    /// Subsystem vendor identifier, at offset 0x2c.
    pub subsystem_vendor_id: u16,
    /// Subsystem identifier, at offset 0x2e.
    pub subsystem_id: u16,
    /// Expansion ROM base address, at offset 0x30.
    pub expansion_rom_base_address: u32,
    /// Offset of the first capability, at offset 0x34.
    pub capabilities_pointer: u16,
    /// Reserved, at offset 0x36.
    pub _reserved1: u16,
    /// Reserved, at offset 0x38.
    pub _reserved2: u32,
    /// Interrupt line, at offset 0x3c.
    pub interrupt_line: u8,
    /// Interrupt pin, at offset 0x3d.
    pub interrupt_pin: u8,
    /// Minimum grant, at offset 0x3e.
    pub min_gnt: u8,
    /// Maximum latency, at offset 0x3f.
    pub max_lat: u8,
    /// The capabilities, each under the range it occupies.
    pub capabilities: CapabilityMap,
    /// For each base address register, what a sizing probe reads back.
    pub bar_size: [u32; 6],
    /// What a sizing probe of the expansion ROM reads back.
    pub expansion_rom_base_address_size: u32,
    /// Number of MSI-X vectors.
    pub num_msix_vectors: u16,
    /// Size of the MSI-X table region.
    pub msix_region_size: u16,
    /// Address of the MSI-X table region.
    pub msix_address: u64,
    /// Bus number.
    pub bus: u32,
    /// Slot (device) number.
    pub slot: u32,
    /// Function number.
    pub func: u32,
}

impl PCIDevice {
    /// The image of the header from offset 0x00 to 0x10.
    #[verifier::opaque]
    pub open spec fn identity_bytes(&self) -> Seq<u8> {
        u16_le(self.vendor_id) + u16_le(self.device_id) + u16_le(self.command) + u16_le(
            self.status,
        ) + self.revision_id_class_code@ + seq![
            self.cacheline_size,
            self.latency_timer,
            self.header_type,
            self.bist,
        ]
    }

    /// The image of the header from offset 0x10 to 0x28: the base address
    /// registers.
    #[verifier::opaque]
    pub open spec fn bar_bytes(&self) -> Seq<u8> {
        u32_le(self.bar[0]) + u32_le(self.bar[1]) + u32_le(self.bar[2]) + u32_le(self.bar[3])
            + u32_le(self.bar[4]) + u32_le(self.bar[5])
    }

    /// The image of the header from offset 0x28 to 0x40.
    #[verifier::opaque]
    pub open spec fn tail_bytes(&self) -> Seq<u8> {
        u32_le(self.cardbus_cis_pointer) + u16_le(self.subsystem_vendor_id) + u16_le(
            self.subsystem_id,
        ) + u32_le(self.expansion_rom_base_address) + u16_le(self.capabilities_pointer) + u16_le(
            self._reserved1,
        ) + u32_le(self._reserved2) + seq![
            self.interrupt_line,
            self.interrupt_pin,
            self.min_gnt,
            self.max_lat,
        ]
    }

    /// The device that agrees with `self` outside the header and whose
    /// header is spelled by the 0x40 bytes of `image`.
    pub open spec fn with_header(&self, image: Seq<u8>) -> Self
        recommends
            image.len() == 0x40,
    {
        PCIDevice {
            vendor_id: le_u16(image.subrange(0x00, 0x02)),
            device_id: le_u16(image.subrange(0x02, 0x04)),
            command: le_u16(image.subrange(0x04, 0x06)),
            status: le_u16(image.subrange(0x06, 0x08)),
            revision_id_class_code: [image[0x08], image[0x09], image[0x0a], image[0x0b]],
            cacheline_size: image[0x0c],
            latency_timer: image[0x0d],
            header_type: image[0x0e],
            bist: image[0x0f],
            bar: [
                le_u32(image.subrange(0x10, 0x14)),
                le_u32(image.subrange(0x14, 0x18)),
                le_u32(image.subrange(0x18, 0x1c)),
                le_u32(image.subrange(0x1c, 0x20)),
                le_u32(image.subrange(0x20, 0x24)),
                le_u32(image.subrange(0x24, 0x28)),
            ],
            cardbus_cis_pointer: le_u32(image.subrange(0x28, 0x2c)),
            subsystem_vendor_id: le_u16(image.subrange(0x2c, 0x2e)),
            subsystem_id: le_u16(image.subrange(0x2e, 0x30)),
            expansion_rom_base_address: le_u32(image.subrange(0x30, 0x34)),
            capabilities_pointer: le_u16(image.subrange(0x34, 0x36)),
            _reserved1: le_u16(image.subrange(0x36, 0x38)),
            _reserved2: le_u32(image.subrange(0x38, 0x3c)),
            interrupt_line: image[0x3c],
            interrupt_pin: image[0x3d],
            min_gnt: image[0x3e],
            max_lat: image[0x3f],
            capabilities: self.capabilities,
            bar_size: self.bar_size,
            expansion_rom_base_address_size: self.expansion_rom_base_address_size,
            num_msix_vectors: self.num_msix_vectors,
            msix_region_size: self.msix_region_size,
            msix_address: self.msix_address,
            bus: self.bus,
            slot: self.slot,
            func: self.func,
        }
    }

    /// The three parts of the header image have 0x10, 0x18 and 0x18 bytes.
    pub proof fn lemma_header_parts(&self)
        ensures
            self.identity_bytes().len() == 0x10,
            self.bar_bytes().len() == 0x18,
            self.tail_bytes().len() == 0x18,
            self.bytes().len() == 0x40,
            self.bytes().subrange(0, 0x10) == self.identity_bytes(),
            self.bytes().subrange(0x10, 0x28) == self.bar_bytes(),
            self.bytes().subrange(0x28, 0x40) == self.tail_bytes(),
    {
        reveal(PCIDevice::identity_bytes);
        reveal(PCIDevice::bar_bytes);
        reveal(PCIDevice::tail_bytes);
        assert(self.bytes().subrange(0, 0x10) =~= self.identity_bytes());
        assert(self.bytes().subrange(0x10, 0x28) =~= self.bar_bytes());
        assert(self.bytes().subrange(0x28, 0x40) =~= self.tail_bytes());
    }
}

/// Whether `device` is the view of a device: a header of 0x40 bytes, six
/// size masks, and capabilities in valid, pairwise disjoint ranges.
pub open spec fn device_valid(device: DeviceView) -> bool {
    &&& device.header.len() == 0x40
    &&& device.bar_size.len() == 6
    &&& ranges_valid(device.capabilities)
}

/// Whether an access of `size` bytes at `offset` meets `device`: it lies in
/// the standard header, or it falls into a capability.
pub open spec fn access_meets(device: DeviceView, offset: u8, size: u8) -> bool {
    if offset < 0x40 {
        in_header(offset, size)
    } else {
        capability_hit(device.capabilities, offset, size) is Some
    }
}

/// What a read returns that follows a write of `value` by an access of the
/// same offset and size, where the access meets the device: the size mask
/// after a sizing probe of a base address register, and else the bytes
/// that were written.
pub open spec fn read_back(device: DeviceView, offset: u8, size: u8, value: u32) -> u32 {
    if size == 4 && is_bar_offset(offset) && is_bar_probe(value) {
        device.bar_size[(offset - 0x10) / 4]
    } else {
        low_bytes(value, size)
    }
}

/// A write leaves a device a device, and changes neither the ranges of its
/// capabilities nor which accesses meet it.
pub proof fn lemma_write_keeps_valid(device: DeviceView, offset: u8, size: u8, value: u32)
    requires
        valid_access_size(size),
        device_valid(device),
    ensures
        device_valid(device_write(device, offset, size, value)),
        device_write(device, offset, size, value).capabilities.dom() == device.capabilities.dom(),
        device_write(device, offset, size, value).bar_size == device.bar_size,
        forall|o: u8, s: u8|
            access_meets(device_write(device, offset, size, value), o, s) == access_meets(
                device,
                o,
                s,
            ),
{
    let after = device_write(device, offset, size, value);
    if offset < 0x40 {
        if in_header(offset, size) {
            lemma_value_round_trip(device.header, offset as int, size, value);
        }
    } else {
        match capability_hit(device.capabilities, offset, size) {
            Some(k) => {
                let capability = device.capabilities[k];
                let image = splice(capability.bytes(), offset - k.0, value_image(value, size));
                lemma_value_round_trip(capability.bytes(), offset - k.0, size, value);
                capability.lemma_with_bytes(image);
                lemma_insert_keeps_ranges_valid(
                    device.capabilities,
                    k,
                    capability.with_bytes(image),
                );
                assert(after.capabilities.dom() =~= device.capabilities.dom());
                assert forall|o: u8, s: u8|
                    access_meets(after, o, s) == access_meets(device, o, s) by {
                    lemma_replace_keeps_lookup(
                        device.capabilities,
                        k,
                        capability.with_bytes(image),
                        o,
                    );
                }
            },
            None => {},
        }
    }
}

/// A read that follows a write by an access of the same offset and size
/// returns what was written, or the size mask after a sizing probe of a
/// base address register, where the access meets the device.
pub proof fn lemma_write_then_read(device: DeviceView, offset: u8, size: u8, value: u32)
    requires
        valid_access_size(size),
        device_valid(device),
        access_meets(device, offset, size),
    ensures
        device_read(device_write(device, offset, size, value), offset, size) == read_back(
            device,
            offset,
            size,
            value,
        ),
{
    if offset < 0x40 {
        if size == 4 && is_bar_offset(offset) && is_bar_probe(value) {
            lemma_value_round_trip(
                device.header,
                offset as int,
                4,
                device.bar_size[(offset - 0x10) / 4],
            );
        } else {
            lemma_value_round_trip(device.header, offset as int, size, value);
        }
    } else {
        let k = capability_hit(device.capabilities, offset, size).unwrap();
        let capability = device.capabilities[k];
        let image = splice(capability.bytes(), offset - k.0, value_image(value, size));
        lemma_value_round_trip(capability.bytes(), offset - k.0, size, value);
        capability.lemma_with_bytes(image);
        lemma_replace_keeps_lookup(device.capabilities, k, capability.with_bytes(image), offset);
    }
}

/// A read that meets neither the header nor a capability returns all ones,
/// and a write there changes nothing.
pub proof fn lemma_access_misses(device: DeviceView, offset: u8, size: u8, value: u32)
    requires
        valid_access_size(size),
        !access_meets(device, offset, size),
    ensures
        device_read(device, offset, size) == all_ones(size),
        device_write(device, offset, size, value) == device,
{
}

/// Behind the header, an access at an offset that no capability's range
/// contains meets nothing.
pub proof fn lemma_uncovered_offset_misses(device: DeviceView, offset: u8, size: u8)
    requires
        offset >= 0x40,
        forall|k: (u8, u8)| #[trigger] device.capabilities.contains_key(k) ==> !covers(k, offset),
    ensures
        !access_meets(device, offset, size),
{
    lemma_lookup_outside(device.capabilities, offset);
}

impl View for PCIDevice {
    type V = DeviceView;

    open spec fn view(&self) -> DeviceView {
        DeviceView {
            header: self.bytes(),
            capabilities: self.capabilities@,
            bar_size: self.bar_size@,
            expansion_rom_base_address_size: self.expansion_rom_base_address_size,
            num_msix_vectors: self.num_msix_vectors,
            msix_region_size: self.msix_region_size,
            msix_address: self.msix_address,
            bus: self.bus,
            slot: self.slot,
            func: self.func,
        }
    }
}

impl ReadWriteStruct for PCIDevice {
    open spec fn bytes(&self) -> Seq<u8> {
        self.identity_bytes() + self.bar_bytes() + self.tail_bytes()
    }

    open spec fn with_bytes(&self, image: Seq<u8>) -> Self {
        self.with_header(image)
    }

    proof fn lemma_with_bytes(&self, image: Seq<u8>) {
        self.lemma_header_parts();
        self.lemma_own_image();
        if image.len() == 0x40 {
            self.lemma_installed_image(image);
        }
    }

    fn read_bytes(&self, start: usize, count: usize) -> (out: Vec<u8>) {
        let image = self.to_image();
        copy_range(image.as_slice(), start, count)
    }

    fn write_bytes(&mut self, start: usize, bytes: &[u8]) {
        proof {
            self.lemma_header_parts();
        }
        let mut image = self.to_image();
        overwrite(&mut image, start, bytes);
        self.set_header(image.as_slice());
    }

    open spec fn size_of_type() -> u8 {
        0x40
    }

    fn struct_size() -> (size: u8) {
        0x40
    }
}

impl PCIDevice {
    /// The header image holds the capabilities pointer at offset 0x34.
    pub proof fn lemma_capabilities_pointer(&self)
        ensures
            le_u16(self.bytes().subrange(0x34, 0x36)) == self.capabilities_pointer,
    {
        self.lemma_own_image();
    }

    proof fn lemma_own_image(&self)
        ensures
            self.with_header(self.bytes()) == *self,
    {
        reveal(PCIDevice::identity_bytes);
        reveal(PCIDevice::bar_bytes);
        reveal(PCIDevice::tail_bytes);
        self.lemma_header_parts();
        let image = self.bytes();
        let a = self.identity_bytes();
        let b = self.bar_bytes();
        let c = self.tail_bytes();
        assert(image.subrange(0x00, 0x02) =~= u16_le(self.vendor_id));
        assert(image.subrange(0x02, 0x04) =~= u16_le(self.device_id));
        assert(image.subrange(0x04, 0x06) =~= u16_le(self.command));
        assert(image.subrange(0x06, 0x08) =~= u16_le(self.status));
        assert(image.subrange(0x10, 0x14) =~= u32_le(self.bar[0]));
        assert(image.subrange(0x14, 0x18) =~= u32_le(self.bar[1]));
        assert(image.subrange(0x18, 0x1c) =~= u32_le(self.bar[2]));
        assert(image.subrange(0x1c, 0x20) =~= u32_le(self.bar[3]));
        assert(image.subrange(0x20, 0x24) =~= u32_le(self.bar[4]));
        assert(image.subrange(0x24, 0x28) =~= u32_le(self.bar[5]));
        assert(image.subrange(0x28, 0x2c) =~= u32_le(self.cardbus_cis_pointer));
        assert(image.subrange(0x2c, 0x2e) =~= u16_le(self.subsystem_vendor_id));
        assert(image.subrange(0x2e, 0x30) =~= u16_le(self.subsystem_id));
        assert(image.subrange(0x30, 0x34) =~= u32_le(self.expansion_rom_base_address));
        assert(image.subrange(0x34, 0x36) =~= u16_le(self.capabilities_pointer));
        assert(image.subrange(0x36, 0x38) =~= u16_le(self._reserved1));
        assert(image.subrange(0x38, 0x3c) =~= u32_le(self._reserved2));
        lemma_u16_round_trip(self.vendor_id);
        lemma_u16_round_trip(self.device_id);
        lemma_u16_round_trip(self.command);
        lemma_u16_round_trip(self.status);
        lemma_u32_round_trip(self.bar[0]);
        lemma_u32_round_trip(self.bar[1]);
        lemma_u32_round_trip(self.bar[2]);
        lemma_u32_round_trip(self.bar[3]);
        lemma_u32_round_trip(self.bar[4]);
        lemma_u32_round_trip(self.bar[5]);
        lemma_u32_round_trip(self.cardbus_cis_pointer);
        lemma_u16_round_trip(self.subsystem_vendor_id);
        lemma_u16_round_trip(self.subsystem_id);
        lemma_u32_round_trip(self.expansion_rom_base_address);
        lemma_u16_round_trip(self.capabilities_pointer);
        lemma_u16_round_trip(self._reserved1);
        lemma_u32_round_trip(self._reserved2);
        let back = self.with_header(image);
        assert(back.revision_id_class_code =~= self.revision_id_class_code);
        assert(back.bar =~= self.bar);
    }

    pub(crate) proof fn lemma_installed_image(&self, image: Seq<u8>)
        requires
            image.len() == 0x40,
        ensures
            self.with_header(image).bytes() == image,
    {
        reveal(PCIDevice::identity_bytes);
        reveal(PCIDevice::bar_bytes);
        reveal(PCIDevice::tail_bytes);
        let d = self.with_header(image);
        d.lemma_header_parts();
        lemma_le_u16_image(image.subrange(0x00, 0x02));
        lemma_le_u16_image(image.subrange(0x02, 0x04));
        lemma_le_u16_image(image.subrange(0x04, 0x06));
        lemma_le_u16_image(image.subrange(0x06, 0x08));
        assert(d.identity_bytes() =~= image.subrange(0, 0x10));
        lemma_le_u32_image(image.subrange(0x10, 0x14));
        lemma_le_u32_image(image.subrange(0x14, 0x18));
        lemma_le_u32_image(image.subrange(0x18, 0x1c));
        lemma_le_u32_image(image.subrange(0x1c, 0x20));
        lemma_le_u32_image(image.subrange(0x20, 0x24));
        lemma_le_u32_image(image.subrange(0x24, 0x28));
        assert(d.bar_bytes() =~= image.subrange(0x10, 0x28));
        lemma_le_u32_image(image.subrange(0x28, 0x2c));
        lemma_le_u16_image(image.subrange(0x2c, 0x2e));
        lemma_le_u16_image(image.subrange(0x2e, 0x30));
        lemma_le_u32_image(image.subrange(0x30, 0x34));
        lemma_le_u16_image(image.subrange(0x34, 0x36));
        lemma_le_u16_image(image.subrange(0x36, 0x38));
        lemma_le_u32_image(image.subrange(0x38, 0x3c));
        assert(d.tail_bytes() =~= image.subrange(0x28, 0x40));
        assert(d.bytes() =~= image);
    }

    fn to_image(&self) -> (out: Vec<u8>)
        ensures
            out@ == self.bytes(),
    {
        reveal(PCIDevice::identity_bytes);
        reveal(PCIDevice::bar_bytes);
        reveal(PCIDevice::tail_bytes);
        let mut out: Vec<u8> = Vec::new();
        out.extend_from_slice(u16_to_le(self.vendor_id).as_slice());
        out.extend_from_slice(u16_to_le(self.device_id).as_slice());
        out.extend_from_slice(u16_to_le(self.command).as_slice());
        out.extend_from_slice(u16_to_le(self.status).as_slice());
        out.extend_from_slice(self.revision_id_class_code.as_slice());
        out.push(self.cacheline_size);
        out.push(self.latency_timer);
        out.push(self.header_type);
        out.push(self.bist);
        assert(out@ =~= self.identity_bytes());
        let mut bars: Vec<u8> = Vec::new();
        bars.extend_from_slice(u32_to_le(self.bar[0]).as_slice());
        bars.extend_from_slice(u32_to_le(self.bar[1]).as_slice());
        bars.extend_from_slice(u32_to_le(self.bar[2]).as_slice());
        bars.extend_from_slice(u32_to_le(self.bar[3]).as_slice());
        bars.extend_from_slice(u32_to_le(self.bar[4]).as_slice());
        bars.extend_from_slice(u32_to_le(self.bar[5]).as_slice());
        assert(bars@ =~= self.bar_bytes());
        let mut tail: Vec<u8> = Vec::new();
        tail.extend_from_slice(u32_to_le(self.cardbus_cis_pointer).as_slice());
        tail.extend_from_slice(u16_to_le(self.subsystem_vendor_id).as_slice());
        tail.extend_from_slice(u16_to_le(self.subsystem_id).as_slice());
        tail.extend_from_slice(u32_to_le(self.expansion_rom_base_address).as_slice());
        tail.extend_from_slice(u16_to_le(self.capabilities_pointer).as_slice());
        tail.extend_from_slice(u16_to_le(self._reserved1).as_slice());
        tail.extend_from_slice(u32_to_le(self._reserved2).as_slice());
        tail.push(self.interrupt_line);
        tail.push(self.interrupt_pin);
        tail.push(self.min_gnt);
        tail.push(self.max_lat);
        assert(tail@ =~= self.tail_bytes());
        out.extend_from_slice(bars.as_slice());
        out.extend_from_slice(tail.as_slice());
        out
    }

    fn set_header(&mut self, image: &[u8])
        requires
            image@.len() == 0x40,
        ensures
            *final(self) == old(self).with_header(image@),
    {
        self.vendor_id = u16_from_le(image, 0x00);
        self.device_id = u16_from_le(image, 0x02);
        self.command = u16_from_le(image, 0x04);
        self.status = u16_from_le(image, 0x06);
        self.revision_id_class_code = [image[0x08], image[0x09], image[0x0a], image[0x0b]];
        self.cacheline_size = image[0x0c];
        self.latency_timer = image[0x0d];
        self.header_type = image[0x0e];
        self.bist = image[0x0f];
        self.bar = [
            u32_from_le(image, 0x10),
            u32_from_le(image, 0x14),
            u32_from_le(image, 0x18),
            u32_from_le(image, 0x1c),
            u32_from_le(image, 0x20),
            u32_from_le(image, 0x24),
        ];
        self.cardbus_cis_pointer = u32_from_le(image, 0x28);
        self.subsystem_vendor_id = u16_from_le(image, 0x2c);
        self.subsystem_id = u16_from_le(image, 0x2e);
        self.expansion_rom_base_address = u32_from_le(image, 0x30);
        self.capabilities_pointer = u16_from_le(image, 0x34);
        self._reserved1 = u16_from_le(image, 0x36);
        self._reserved2 = u32_from_le(image, 0x38);
        self.interrupt_line = image[0x3c];
        self.interrupt_pin = image[0x3d];
        self.min_gnt = image[0x3e];
        self.max_lat = image[0x3f];
    }

    /// The capability whose range contains the offset `value`, if there is
    /// one.
    pub fn find_capability(&self, value: u8) -> (found: Option<CapabilityEnum>)
        ensures
            found == match covering_key(self.capabilities@, value) {
                Some(k) => Some(self.capabilities@[k]),
                None => None,
            },
    {
        self.capabilities.find(value)
    }

    /// Stores `capability` under the range from `start` to `end`: the way
    /// to put back a capability that `find_capability` handed out, after
    /// changing it, and to add one while the device is set up.
    ///
    /// A new range that is empty or reaches into the standard header is
    /// refused as an invalid parameter, one that overlaps a stored range
    /// as a bad state; the device is then unchanged.
    pub fn update_capability_map(&mut self, start: u8, end: u8, capability: CapabilityEnum) -> (result:
        Result<(), HyperError>)
        ensures
            result is Ok <==> insertable(old(self).capabilities@, (start, end)),
            result is Ok ==> final(self).capabilities@ == old(self).capabilities@.insert(
                (start, end),
                capability,
            ),
            result is Err ==> final(self).capabilities@ == old(self).capabilities@,
            result is Err ==> (result == Err::<(), HyperError>(HyperError::InvalidParam)
                <==> !valid_range((start, end))),
            result is Err ==> (result == Err::<(), HyperError>(HyperError::BadState)
                <==> valid_range((start, end))),
            *final(self) == (PCIDevice { capabilities: final(self).capabilities, ..*old(self) }),
    {
        self.capabilities.insert(start, end, capability)
    }

    /// The range that contains `offset`; `(0xff, 0xff)` if there is none.
    pub fn find_capability_range(&self, offset: u8) -> (range: (u8, u8))
        ensures
            range == match covering_key(self.capabilities@, offset) {
                Some(k) => k,
                None => (0xffu8, 0xffu8),
            },
    {
        self.capabilities.find_range(offset)
    }

    /// What the guest reads with an access of `access_size` bytes at
    /// configuration-space offset `offset`.
    ///
    /// An access size other than 1, 2 or 4 is an invalid parameter.
    pub fn config_read(&self, offset: u8, access_size: u8) -> (result: Result<u32, HyperError>)
        ensures
            valid_access_size(access_size) ==> result == Ok::<u32, HyperError>(
                device_read(self@, offset, access_size),
            ),
            !valid_access_size(access_size) ==> result == Err::<u32, HyperError>(
                HyperError::InvalidParam,
            ),
    {
        if access_size != 1 && access_size != 2 && access_size != 4 {
            return Err(HyperError::InvalidParam);
        }
        let none: u32 = if access_size == 1 {
            0xff
        } else if access_size == 2 {
            0xffff
        } else {
            0xffff_ffff
        };
        proof {
            self.lemma_header_parts();
        }
        if offset < 0x40 {
            if offset as usize + access_size as usize > PCI_CONFIG_HEADER_END {
                return Ok(none);
            }
            let at: usize = offset as usize;
            let value: u32 = if access_size == 1 {
                read_u8(self, at) as u32
            } else if access_size == 2 {
                read_u16(self, at) as u32
            } else {
                read_u32(self, at)
            };
            Ok(value)
        } else {
            match self.find_capability(offset) {
                Some(capability) => {
                    let capability_start = self.find_capability_range(offset).0;
                    let at: usize = (offset - capability_start) as usize;
                    if at + access_size as usize > capability.payload_size() as usize {
                        return Ok(none);
                    }
                    let value: u32 = if access_size == 1 {
                        read_u8(&capability, at) as u32
                    } else if access_size == 2 {
                        read_u16(&capability, at) as u32
                    } else {
                        read_u32(&capability, at)
                    };
                    Ok(value)
                },
                None => Ok(none),
            }
        }
    }

    /// Performs the guest's write of the low `access_size` bytes of
    /// `value` at configuration-space offset `offset`.
    ///
    /// An access size other than 1, 2 or 4 is an invalid parameter, and
    /// the device is then unchanged.
    pub fn config_write(&mut self, offset: u8, access_size: u8, value: u32) -> (result: Result<
        (),
        HyperError,
    >)
        ensures
            valid_access_size(access_size) ==> result == Ok::<(), HyperError>(()) && final(self)@ == device_write(
                old(self)@,
                offset,
                access_size,
                value,
            ),
            !valid_access_size(access_size) ==> result == Err::<(), HyperError>(
                HyperError::InvalidParam,
            ) && *final(self) == *old(self),
    {
        if access_size != 1 && access_size != 2 && access_size != 4 {
            return Err(HyperError::InvalidParam);
        }
        proof {
            reveal(PCIDevice::identity_bytes);
            reveal(PCIDevice::bar_bytes);
            reveal(PCIDevice::tail_bytes);
            self.lemma_header_parts();
        }
        if offset < 0x40 {
            if offset as usize + access_size as usize > PCI_CONFIG_HEADER_END {
                return Ok(());
            }
            let at: usize = offset as usize;
            let ghost image = header_after_write(self@, offset, access_size, value);
            proof {
                self.lemma_installed_image(image);
            }
            if access_size == 1 {
                write_u8(self, at, (value % 0x100) as u8);
            } else if access_size == 2 {
                write_u16(self, at, (value % 0x1_0000) as u16);
            } else if (value == BAR_WRITE_MASK0 || value == BAR_WRITE_MASK1) && 0x10 <= offset
                && offset <= 0x24 && offset % 4 == 0 {
                let index: usize = (at - 0x10) / 4;
                let mask: u32 = self.bar_size[index];
                write_u32(self, at, mask);
            } else {
                write_u32(self, at, value);
            }
            Ok(())
        } else {
            match self.find_capability(offset) {
                Some(mut capability) => {
                    let (start, end) = self.find_capability_range(offset);
                    let at: usize = (offset - start) as usize;
                    if at + access_size as usize > capability.payload_size() as usize {
                        return Ok(());
                    }
                    if access_size == 1 {
                        write_u8(&mut capability, at, (value % 0x100) as u8);
                    } else if access_size == 2 {
                        write_u16(&mut capability, at, (value % 0x1_0000) as u16);
                    } else {
                        write_u32(&mut capability, at, value);
                    }
                    let stored = self.update_capability_map(start, end, capability);
                    assert(stored is Ok);
                    Ok(())
                },
                None => Ok(()),
            }
        }
    }
}

impl Clone for PCIDevice {
    /// A device with the same header, capabilities and other values.
    fn clone(&self) -> (copy: Self)
        ensures
            copy@ == self@,
    {
        proof {
            reveal(PCIDevice::identity_bytes);
            reveal(PCIDevice::bar_bytes);
            reveal(PCIDevice::tail_bytes);
        }
        let copy = PCIDevice {
            vendor_id: self.vendor_id,
            device_id: self.device_id,
            command: self.command,
            status: self.status,
            revision_id_class_code: self.revision_id_class_code,
            cacheline_size: self.cacheline_size,
            latency_timer: self.latency_timer,
            header_type: self.header_type,
            bist: self.bist,
            bar: self.bar,
            cardbus_cis_pointer: self.cardbus_cis_pointer,
            subsystem_vendor_id: self.subsystem_vendor_id,
            subsystem_id: self.subsystem_id,
            expansion_rom_base_address: self.expansion_rom_base_address,
            capabilities_pointer: self.capabilities_pointer,
            _reserved1: self._reserved1,
            _reserved2: self._reserved2,
            interrupt_line: self.interrupt_line,
            interrupt_pin: self.interrupt_pin,
            min_gnt: self.min_gnt,
            max_lat: self.max_lat,
            capabilities: self.capabilities.clone(),
            bar_size: self.bar_size,
            expansion_rom_base_address_size: self.expansion_rom_base_address_size,
            num_msix_vectors: self.num_msix_vectors,
            msix_region_size: self.msix_region_size,
            msix_address: self.msix_address,
            bus: self.bus,
            slot: self.slot,
            func: self.func,
        };
        copy
    }
}

} // verus!
