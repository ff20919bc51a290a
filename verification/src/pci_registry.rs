//! The registry of virtual PCI devices, keyed by bus, slot and function,
//! and the encoding of that key in the address that the guest writes to
//! the configuration-space address port.

use vstd::prelude::*;
use std::collections::BTreeMap;
use crate::bytes::le_u16;
use crate::capability_map::chain_closed;
use crate::error::{all_ones, valid_access_size, HyperError};
use crate::pci_dev::{device_read, device_write, DeviceView, PCIDevice};

verus! {

/// The bits of a selector that hold the bus number: 23 to 16.
pub const BUS_MASK: u32 = 0x00ff_0000;

/// The bits of a selector that hold the slot number: 15 to 11.
pub const SLOT_MASK: u32 = 0x0000_f800;

/// The bits of a selector that hold the function number: 10 to 8.
pub const FUNC_MASK: u32 = 0x0000_0700;

/// The bits of a selector that hold the configuration-space offset: 7
/// to 2.
pub const OFFSET_MASK: u16 = 0x00fc;

/// The bits of a selector that name the device: bus, slot and function.
pub const BDF_MASK: u32 = 0x00ff_ff00;

/// The bit of a selector that enables configuration access.
pub const SELECTOR_ENABLE: u32 = 0x8000_0000;

/// Whether the three numbers fit the fields that a selector has for them:
/// eight bits of bus, five of slot, three of function.
pub open spec fn valid_bdf(bus: u32, slot: u32, func: u32) -> bool {
    bus <= 0xff && slot <= 0x1f && func <= 0x7
}

/// The key of the device at `bus`, `slot` and `func`: the three numbers at
/// the bit positions that they have in a selector.
pub open spec fn bdf_key(bus: u32, slot: u32, func: u32) -> u32
    recommends
        valid_bdf(bus, slot, func),
{
    (bus * 0x1_0000 + slot * 0x800 + func * 0x100) as u32
}

/// The key of the device that `selector` names.
pub open spec fn selector_key(selector: u32) -> u32 {
    selector & BDF_MASK
}

/// The bus number in `selector`.
pub open spec fn selector_bus(selector: u32) -> u32 {
    (selector & BUS_MASK) >> 16
}

/// The slot number in `selector`.
pub open spec fn selector_slot(selector: u32) -> u32 {
    (selector & SLOT_MASK) >> 11
}

/// The function number in `selector`.
pub open spec fn selector_func(selector: u32) -> u32 {
    (selector & FUNC_MASK) >> 8
}

/// The configuration-space offset in `selector`: a multiple of four.
pub open spec fn selector_offset(selector: u32) -> u8 {
    (selector & 0xfc) as u8
}

/// The selector that names the device at `bus`, `slot` and `func` and the
/// offset `offset`, of which it keeps bits 7 to 2.
pub open spec fn selector_of(bus: u32, slot: u32, func: u32, offset: u8) -> u32
    recommends
        valid_bdf(bus, slot, func),
{
    SELECTOR_ENABLE | (bus << 16) | (slot << 11) | (func << 8) | ((offset & 0xfc) as u32)
}

/// The key of the device at `bus`, `slot` and `func`, or `None` where one
/// of the numbers does not fit its field.
pub fn make_bdf(bus: u32, slot: u32, func: u32) -> (key: Option<u32>)
    ensures
        key == if valid_bdf(bus, slot, func) {
            Some(bdf_key(bus, slot, func))
        } else {
            None
        },
{
    if bus <= 0xff && slot <= 0x1f && func <= 0x7 {
        assert((bus << 16) | (slot << 11) | (func << 8) == bus * 0x1_0000 + slot * 0x800 + func
            * 0x100) by (bit_vector)
            requires
                bus <= 0xff && slot <= 0x1f && func <= 0x7,
        ;
        Some((bus << 16) | (slot << 11) | (func << 8))
    } else {
        None
    }
}

/// The selector that a guest writes to the address port to reach `offset`
/// in the configuration space of the device at `bus`, `slot` and `func`;
/// `None` where one of the numbers does not fit its field.
pub fn make_selector(bus: u32, slot: u32, func: u32, offset: u8) -> (selector: Option<u32>)
    ensures
        selector == if valid_bdf(bus, slot, func) {
            Some(selector_of(bus, slot, func, offset))
        } else {
            None
        },
{
    if bus <= 0xff && slot <= 0x1f && func <= 0x7 {
        Some(SELECTOR_ENABLE | (bus << 16) | (slot << 11) | (func << 8) | ((offset & 0xfc) as u32))
    } else {
        None
    }
}

/// The bus, slot and function numbers in `selector`.
pub fn decode_bdf(selector: u32) -> (bdf: (u32, u32, u32))
    ensures
        bdf == (selector_bus(selector), selector_slot(selector), selector_func(selector)),
        valid_bdf(bdf.0, bdf.1, bdf.2),
        bdf_key(bdf.0, bdf.1, bdf.2) == selector_key(selector),
{
    let bus: u32 = (selector & BUS_MASK) >> 16;
    let slot: u32 = (selector & SLOT_MASK) >> 11;
    let func: u32 = (selector & FUNC_MASK) >> 8;
    assert(((selector & 0x00ff_0000) >> 16) <= 0xff && ((selector & 0x0000_f800) >> 11) <= 0x1f
        && ((selector & 0x0000_0700) >> 8) <= 0x7 && ((selector & 0x00ff_0000) >> 16) * 0x1_0000
        + ((selector & 0x0000_f800) >> 11) * 0x800 + ((selector & 0x0000_0700) >> 8) * 0x100
        == selector & 0x00ff_ff00) by (bit_vector);
    (bus, slot, func)
}

/// A selector names the device it was made for, and holds the offset it
/// was made for but for the two lowest bits.
pub proof fn lemma_selector_round_trip(bus: u32, slot: u32, func: u32, offset: u8)
    requires
        valid_bdf(bus, slot, func),
    ensures
        selector_bus(selector_of(bus, slot, func, offset)) == bus,
        selector_slot(selector_of(bus, slot, func, offset)) == slot,
        selector_func(selector_of(bus, slot, func, offset)) == func,
        selector_key(selector_of(bus, slot, func, offset)) == bdf_key(bus, slot, func),
        selector_offset(selector_of(bus, slot, func, offset)) == offset - offset % 4,
{
    let s = 0x8000_0000u32 | (bus << 16) | (slot << 11) | (func << 8) | ((offset & 0xfc) as u32);
    assert(s == selector_of(bus, slot, func, offset));
    assert(((s & 0x00ff_0000) >> 16) == bus && ((s & 0x0000_f800) >> 11) == slot && ((s
        & 0x0000_0700) >> 8) == func && (s & 0x00ff_ff00) == bus * 0x1_0000 + slot * 0x800 + func
        * 0x100 && (s & 0xfc) == offset - offset % 4) by (bit_vector)
        requires
            bus <= 0xff && slot <= 0x1f && func <= 0x7,
            s == 0x8000_0000u32 | (bus << 16) | (slot << 11) | (func << 8) | ((offset & 0xfc) as u32),
    ;
}

/// The offset of the first capability, as the header of `device` holds it
/// at offset 0x34.
pub open spec fn capabilities_head(device: DeviceView) -> u16 {
    le_u16(device.header.subrange(0x34, 0x36))
}

/// Whether `device` can be registered: its numbers fit their fields, and
/// its capability chain is consistent with the ranges of its capabilities.
pub open spec fn registrable(device: DeviceView) -> bool {
    &&& valid_bdf(device.bus, device.slot, device.func)
    &&& chain_closed(device.capabilities, capabilities_head(device) as int)
}

/// The virtual PCI devices of a guest, each under the key of its bus, slot
/// and function.
#[derive(Debug)]
pub struct PciRegistry {
    devices: BTreeMap<u32, PCIDevice>,
}

impl View for PciRegistry {
    type V = Map<u32, DeviceView>;

    closed spec fn view(&self) -> Map<u32, DeviceView> {
        Map::new(|k: u32| self.devices@.contains_key(k), |k: u32| self.devices@[k]@)
    }
}

impl PciRegistry {
    /// A registry without devices.
    pub fn new() -> (registry: Self)
        ensures
            registry@ == Map::<u32, DeviceView>::empty(),
    {
        let registry = PciRegistry { devices: BTreeMap::new() };
        assert(registry@ =~= Map::<u32, DeviceView>::empty());
        registry
    }

    /// Whether a device is registered under `key`.
    pub fn contains(&self, key: u32) -> (found: bool)
        ensures
            found == self@.contains_key(key),
    {
        self.devices.contains_key(&key)
    }

    /// The device registered under `key`, if there is one.
    pub fn get(&self, key: u32) -> (found: Option<&PCIDevice>)
        ensures
            match found {
                Some(device) => self@.contains_key(key) && device@ == self@[key],
                None => !self@.contains_key(key),
            },
    {
        self.devices.get(&key)
    }

    /// Registers `device` under the key of its bus, slot and function.
    ///
    /// A device whose numbers do not fit their fields is refused as an
    /// invalid parameter, one whose key is taken as out of range, and one
    /// whose capability chain is not consistent with the ranges of its
    /// capabilities as a bad state. A refused call changes nothing.
    pub fn register(&mut self, device: PCIDevice) -> (result: Result<(), HyperError>)
        ensures
            result is Ok <==> registrable(device@) && !old(self)@.contains_key(
                bdf_key(device.bus, device.slot, device.func),
            ),
            match result {
                Ok(_) => {
                    let key = bdf_key(device.bus, device.slot, device.func);
                    &&& registrable(device@)
                    &&& !old(self)@.contains_key(key)
                    &&& final(self)@ == old(self)@.insert(key, device@)
                },
                Err(e) => {
                    &&& final(self)@ == old(self)@
                    &&& e == if !valid_bdf(device.bus, device.slot, device.func) {
                        HyperError::InvalidParam
                    } else if old(self)@.contains_key(
                        bdf_key(device.bus, device.slot, device.func),
                    ) {
                        HyperError::OutOfRange
                    } else {
                        HyperError::BadState
                    }
                },
            },
    {
        let key = match make_bdf(device.bus, device.slot, device.func) {
            Some(key) => key,
            None => {
                return Err(HyperError::InvalidParam);
            },
        };
        if self.devices.contains_key(&key) {
            return Err(HyperError::OutOfRange);
        }
        proof {
            device.lemma_capabilities_pointer();
        }
        if !device.capabilities.chain_closed(device.capabilities_pointer) {
            return Err(HyperError::BadState);
        }
        let ghost view = device@;
        self.devices.insert(key, device);
        assert(self@ =~= old(self)@.insert(key, view));
        Ok(())
    }

    /// What the guest reads with an access of `access_size` bytes at
    /// configuration-space offset `offset` of the device under `key`: all
    /// ones where no device is registered there.
    ///
    /// An access size other than 1, 2 or 4 is an invalid parameter.
    pub fn read_config(&self, key: u32, offset: u8, access_size: u8) -> (result: Result<
        u32,
        HyperError,
    >)
        ensures
            valid_access_size(access_size) ==> result == Ok::<u32, HyperError>(
                registry_read(self@, key, offset, access_size),
            ),
            !valid_access_size(access_size) ==> result == Err::<u32, HyperError>(
                HyperError::InvalidParam,
            ),
    {
        match self.devices.get(&key) {
            Some(device) => device.config_read(offset, access_size),
            None => if access_size == 1 {
                Ok(0xff)
            } else if access_size == 2 {
                Ok(0xffff)
            } else if access_size == 4 {
                Ok(0xffff_ffff)
            } else {
                Err(HyperError::InvalidParam)
            },
        }
    }

    /// Performs the guest's write of the low `access_size` bytes of
    /// `value` at configuration-space offset `offset` of the device under
    /// `key`; where no device is registered there, the write is dropped.
    ///
    /// An access size other than 1, 2 or 4 is an invalid parameter, and
    /// the registry is then unchanged.
    pub fn write_config(&mut self, key: u32, offset: u8, access_size: u8, value: u32) -> (result:
        Result<(), HyperError>)
        ensures
            valid_access_size(access_size) ==> result == Ok::<(), HyperError>(()) && final(self)@ == registry_write(
                old(self)@,
                key,
                offset,
                access_size,
                value,
            ),
            !valid_access_size(access_size) ==> result == Err::<(), HyperError>(
                HyperError::InvalidParam,
            ) && final(self)@ == old(self)@,
    {
        if access_size != 1 && access_size != 2 && access_size != 4 {
            return Err(HyperError::InvalidParam);
        }
        match self.devices.remove(&key) {
            Some(mut device) => {
                let ghost before = device@;
                let written = device.config_write(offset, access_size, value);
                let ghost after = device@;
                self.devices.insert(key, device);
                assert(self@ =~= old(self)@.insert(key, after));
                written
            },
            None => {
                assert(self@ =~= old(self)@);
                Ok(())
            },
        }
    }
}

/// What an access of `size` bytes reads at `offset` of the device under
/// `key`: all ones where the registry has no such device.
pub open spec fn registry_read(devices: Map<u32, DeviceView>, key: u32, offset: u8, size: u8) -> u32
    recommends
        valid_access_size(size),
{
    if devices.contains_key(key) {
        device_read(devices[key], offset, size)
    } else {
        all_ones(size)
    }
}

/// The registry after a write of the low `size` bytes of `value` at
/// `offset` of the device under `key`: unchanged where it has no such
/// device.
pub open spec fn registry_write(
    devices: Map<u32, DeviceView>,
    key: u32,
    offset: u8,
    size: u8,
    value: u32,
) -> Map<u32, DeviceView>
    recommends
        valid_access_size(size),
{
    if devices.contains_key(key) {
        devices.insert(key, device_write(devices[key], offset, size, value))
    } else {
        devices
    }
}

} // verus!
