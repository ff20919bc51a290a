//! The PCI configuration-space controller: the two port windows through
//! which the guest reaches the configuration space of every device.
//!
//! A write to the address window leaves a selector pending. The next
//! access to the data window is carried out on the device and the offset
//! that the selector names, and consumes the selector.

use vstd::prelude::*;
use core::ops::Range;
use crate::device::PortIoDevice;
use crate::error::{all_ones, valid_access_size, HyperError, HyperResult};
use crate::capability_map::covers;
use crate::pci_dev::{
    access_meets, device_valid, in_header, lemma_uncovered_offset_misses, lemma_write_then_read,
    read_back, DeviceView, PCIDevice,
};
use crate::pci_registry::{
    bdf_key, lemma_selector_round_trip, registrable, registry_read, registry_write, selector_key,
    selector_of, selector_offset, valid_bdf, PciRegistry, BDF_MASK,
};

verus! {

/// What a 4-byte read at the first port of the address window returns: the
/// pattern by which a guest that probes for configuration mechanism #1
/// recognises it.
pub const ADDRESS_PROBE_VALUE: u32 = 0x8000_0000;

/// The state of the controller.
pub struct ConfigSpaceView {
    /// The first port of the address window, and of the ports that the
    /// controller claims.
    pub port_base: u16,
    /// The port behind the last one that the controller claims.
    pub port_end: u16,
    /// The selector that the last write to the address window left, until
    /// an access to the data window consumes it.
    pub pending: Option<u32>,
    /// The registered devices.
    pub devices: Map<u32, DeviceView>,
}

/// Whether `port` lies in the address window: the four ports from the base
/// on.
pub open spec fn in_address_window(port_base: u16, port: u16) -> bool {
    port_base <= port < port_base + 4
}

/// Whether `port` lies in the data window: the four ports behind the
/// address window.
pub open spec fn in_data_window(port_base: u16, port: u16) -> bool {
    port_base + 4 <= port < port_base + 8
}

/// What a read of `size` bytes in the address window returns but for the
/// probe: all ones with the lowest bit clear, which tells the guest that
/// no host bridge answers there.
pub open spec fn address_sentinel(size: u8) -> u32
    recommends
        valid_access_size(size),
{
    if size == 1 {
        0xfe
    } else if size == 2 {
        0xfffe
    } else {
        0xffff_fffe
    }
}

/// The part of the data port's position in its window that selects bytes
/// within the addressed doubleword: both low bits for a byte access, the
/// higher of them for a word access, none for a doubleword access.
pub open spec fn sub_address(position: u16, size: u8) -> u16
    recommends
        valid_access_size(size),
{
    if size == 1 {
        position & 0b11
    } else if size == 2 {
        position & 0b10
    } else {
        0
    }
}

/// The configuration-space offset of an access of `size` bytes through the
/// data port at `position` in its window, with `selector` pending: bits 7
/// to 2 of the selector, plus the sub-address.
pub open spec fn config_offset(selector: u32, position: u16, size: u8) -> u8
    recommends
        valid_access_size(size),
        position < 4,
{
    (((selector & 0xfc) as u16) + sub_address(position, size)) as u8
}

/// The controller after a read of `size` bytes at `port`, and what the
/// read returns.
pub open spec fn read_step(state: ConfigSpaceView, port: u16, size: u8) -> (
    ConfigSpaceView,
    Result<u32, HyperError>,
) {
    if !valid_access_size(size) {
        (state, Err(HyperError::InvalidParam))
    } else if in_address_window(state.port_base, port) {
        if port == state.port_base && size == 4 {
            (state, Ok(ADDRESS_PROBE_VALUE))
        } else {
            (state, Ok(address_sentinel(size)))
        }
    } else if in_data_window(state.port_base, port) {
        match state.pending {
            Some(selector) => {
                let position = (port - state.port_base - 4) as u16;
                let offset = config_offset(selector, position, size);
                (
                    ConfigSpaceView { pending: None, ..state },
                    Ok(registry_read(state.devices, selector_key(selector), offset, size)),
                )
            },
            None => (state, Ok(all_ones(size))),
        }
    } else {
        (state, Err(HyperError::InvalidParam))
    }
}

/// The controller after a write of the low `size` bytes of `value` at
/// `port`, and what the write returns.
pub open spec fn write_step(state: ConfigSpaceView, port: u16, size: u8, value: u32) -> (
    ConfigSpaceView,
    Result<(), HyperError>,
) {
    if !valid_access_size(size) {
        (state, Err(HyperError::InvalidParam))
    } else if in_address_window(state.port_base, port) {
        (ConfigSpaceView { pending: Some(value), ..state }, Ok(()))
    } else if in_data_window(state.port_base, port) {
        match state.pending {
            Some(selector) => {
                let position = (port - state.port_base - 4) as u16;
                let offset = config_offset(selector, position, size);
                (
                    ConfigSpaceView {
                        pending: None,
                        devices: registry_write(
                            state.devices,
                            selector_key(selector),
                            offset,
                            size,
                            value,
                        ),
                        ..state
                    },
                    Ok(()),
                )
            },
            None => (state, Ok(())),
        }
    } else {
        (state, Err(HyperError::InvalidParam))
    }
}

/// The PCI configuration-space controller of a guest, with the registry of
/// the guest's devices.
pub struct PCIConfigurationSpace {
    port_base: u16,
    port_end: u16,
    current_device: Option<u32>,
    registry: PciRegistry,
}

impl View for PCIConfigurationSpace {
    type V = ConfigSpaceView;

    closed spec fn view(&self) -> ConfigSpaceView {
        ConfigSpaceView {
            port_base: self.port_base,
            port_end: self.port_end,
            pending: self.current_device,
            devices: self.registry@,
        }
    }
}

impl PCIConfigurationSpace {
    /// A controller whose address window starts at `port_base` and that
    /// claims `port_range` ports, with nothing pending and no device.
    pub fn new(port_base: u16, port_range: u16) -> (controller: Self)
        requires
            port_base + port_range <= u16::MAX,
        ensures
            controller@ == (ConfigSpaceView {
                port_base,
                port_end: (port_base + port_range) as u16,
                pending: None,
                devices: Map::empty(),
            }),
    {
        Self {
            port_base,
            port_end: port_base + port_range,
            current_device: None,
            registry: PciRegistry::new(),
        }
    }

    /// A controller like that of `new`, for the devices of `registry`.
    pub fn with_registry(port_base: u16, port_range: u16, registry: PciRegistry) -> (controller:
        Self)
        requires
            port_base + port_range <= u16::MAX,
        ensures
            controller@ == (ConfigSpaceView {
                port_base,
                port_end: (port_base + port_range) as u16,
                pending: None,
                devices: registry@,
            }),
    {
        Self { port_base, port_end: port_base + port_range, current_device: None, registry }
    }

    /// The registry of the controller's devices.
    pub fn registry(&self) -> (registry: &PciRegistry)
        ensures
            registry@ == self@.devices,
    {
        &self.registry
    }

    /// The selector that is pending, if one is.
    pub fn pending_selector(&self) -> (pending: Option<u32>)
        ensures
            pending == self@.pending,
    {
        self.current_device
    }

    /// Registers `device` with the controller's registry, which refuses it
    /// as `PciRegistry::register` does. Nothing else changes.
    pub fn register_device(&mut self, device: PCIDevice) -> (result: HyperResult)
        ensures
            result is Ok <==> registrable(device@) && !old(self)@.devices.contains_key(
                bdf_key(device.bus, device.slot, device.func),
            ),
            match result {
                Ok(_) => {
                    let key = bdf_key(device.bus, device.slot, device.func);
                    &&& registrable(device@)
                    &&& !old(self)@.devices.contains_key(key)
                    &&& final(self)@ == (ConfigSpaceView {
                        devices: old(self)@.devices.insert(key, device@),
                        ..old(self)@
                    })
                },
                Err(e) => {
                    &&& final(self)@ == old(self)@
                    &&& e == if !valid_bdf(device.bus, device.slot, device.func) {
                        HyperError::InvalidParam
                    } else if old(self)@.devices.contains_key(
                        bdf_key(device.bus, device.slot, device.func),
                    ) {
                        HyperError::OutOfRange
                    } else {
                        HyperError::BadState
                    }
                },
            },
    {
        self.registry.register(device)
    }

    /// The configuration-space offset of an access of `access_size` bytes
    /// through the data port at `position` in its window.
    fn data_offset(selector: u32, position: u16, access_size: u8) -> (offset: u8)
        requires
            valid_access_size(access_size),
            position < 4,
        ensures
            offset == config_offset(selector, position, access_size),
    {
        let base: u16 = (selector & 0xfc) as u16;
        let sub: u16 = if access_size == 1 {
            position & 0b11
        } else if access_size == 2 {
            position & 0b10
        } else {
            0
        };
        assert((selector & 0xfc) <= 0xfc) by (bit_vector);
        assert((position & 0b11) <= 3 && (position & 0b10) <= 2) by (bit_vector);
        (base + sub) as u8
    }
}

impl PortIoDevice for PCIConfigurationSpace {
    open spec fn ports(&self) -> Range<u16> {
        self@.port_base..self@.port_end
    }

    open spec fn read_outcome(
        &self,
        port: u16,
        access_size: u8,
        after: &Self,
        result: Result<u32, HyperError>,
    ) -> bool {
        (after@, result) == read_step(self@, port, access_size)
    }

    open spec fn write_outcome(
        &self,
        port: u16,
        access_size: u8,
        value: u32,
        after: &Self,
        result: Result<(), HyperError>,
    ) -> bool {
        (after@, result) == write_step(self@, port, access_size, value)
    }

    fn port_range(&self) -> (range: Range<u16>) {
        self.port_base..self.port_end
    }

    fn read(&mut self, port: u16, access_size: u8) -> (result: HyperResult<u32>) {
        if access_size != 1 && access_size != 2 && access_size != 4 {
            return Err(HyperError::InvalidParam);
        }
        if port < self.port_base || port - self.port_base >= 8 {
            return Err(HyperError::InvalidParam);
        }
        let position: u16 = port - self.port_base;
        if position < 4 {
            if position == 0 && access_size == 4 {
                Ok(ADDRESS_PROBE_VALUE)
            } else if access_size == 1 {
                Ok(0xfe)
            } else if access_size == 2 {
                Ok(0xfffe)
            } else {
                Ok(0xffff_fffe)
            }
        } else {
            match self.current_device {
                Some(selector) => {
                    self.current_device = None;
                    let offset = Self::data_offset(selector, position - 4, access_size);
                    self.registry.read_config(selector & BDF_MASK, offset, access_size)
                },
                None => if access_size == 1 {
                    Ok(0xff)
                } else if access_size == 2 {
                    Ok(0xffff)
                } else {
                    Ok(0xffff_ffff)
                },
            }
        }
    }

    fn write(&mut self, port: u16, access_size: u8, value: u32) -> (result: HyperResult) {
        if access_size != 1 && access_size != 2 && access_size != 4 {
            return Err(HyperError::InvalidParam);
        }
        if port < self.port_base || port - self.port_base >= 8 {
            return Err(HyperError::InvalidParam);
        }
        let position: u16 = port - self.port_base;
        if position < 4 {
            self.current_device = Some(value);
            Ok(())
        } else {
            match self.current_device {
                Some(selector) => {
                    self.current_device = None;
                    let offset = Self::data_offset(selector, position - 4, access_size);
                    self.registry.write_config(selector & BDF_MASK, offset, access_size, value)
                },
                None => Ok(()),
            }
        }
    }
}

/// The offset of an access through the data port is a multiple of the
/// access size, so an access that starts in the standard header lies in
/// it.
pub proof fn lemma_config_offset_aligned(selector: u32, position: u16, size: u8)
    requires
        valid_access_size(size),
    ensures
        config_offset(selector, position, size) % size == 0,
        config_offset(selector, position, size) < 0x40 ==> in_header(
            config_offset(selector, position, size),
            size,
        ),
        config_offset(selector, position, size) == (selector & 0xfc) + sub_address(position, size),
{
    assert((selector & 0xfc) <= 0xfc && (selector & 0xfc) % 4 == 0) by (bit_vector);
    assert((position & 0b11) <= 3 && (position & 0b10) <= 2 && (position & 0b10) % 2 == 0)
        by (bit_vector);
}

/// The offset that a selector and the data port spell is the offset that
/// the selector was made for, rounded down to a multiple of the access
/// size, where the data port is the one that the offset's two low bits
/// name.
pub proof fn lemma_config_offset_round_trip(bus: u32, slot: u32, func: u32, offset: u8, size: u8)
    requires
        valid_bdf(bus, slot, func),
        valid_access_size(size),
    ensures
        config_offset(selector_of(bus, slot, func, offset), (offset % 4) as u16, size) == offset
            - offset % size,
{
    lemma_selector_round_trip(bus, slot, func, offset);
    let selector = selector_of(bus, slot, func, offset);
    let position = (offset % 4) as u16;
    assert((selector & 0xfc) <= 0xfc) by (bit_vector);
    assert(selector & 0xfc == selector_offset(selector));
    assert((position & 0b11) == offset % 4 && (position & 0b10) == (offset % 4) - (offset % 2))
        by (bit_vector)
        requires
            position == offset % 4,
    ;
}

/// A write to the address window replaces the pending selector by the
/// value written, whatever was pending: of two such writes in a row, the
/// second alone counts.
pub proof fn lemma_address_write_replaces(
    state: ConfigSpaceView,
    first_port: u16,
    first_size: u8,
    first: u32,
    second_port: u16,
    second_size: u8,
    second: u32,
)
    requires
        valid_access_size(first_size),
        valid_access_size(second_size),
        in_address_window(state.port_base, first_port),
        in_address_window(state.port_base, second_port),
    ensures
        write_step(state, second_port, second_size, second).0.pending == Some(second),
        write_step(
            write_step(state, first_port, first_size, first).0,
            second_port,
            second_size,
            second,
        ) == write_step(state, second_port, second_size, second),
{
}

/// An access to the data window while nothing is pending changes nothing;
/// the read returns all ones, the write succeeds.
pub proof fn lemma_data_access_without_selector(
    state: ConfigSpaceView,
    port: u16,
    size: u8,
    value: u32,
)
    requires
        valid_access_size(size),
        in_data_window(state.port_base, port),
        state.pending is None,
    ensures
        read_step(state, port, size) == (state, Ok::<u32, HyperError>(all_ones(size))),
        write_step(state, port, size, value) == (state, Ok::<(), HyperError>(())),
{
}

/// An access to the data window leaves nothing pending, so a second one
/// that follows it directly finds no selector.
pub proof fn lemma_data_access_consumes_selector(
    state: ConfigSpaceView,
    port: u16,
    size: u8,
    value: u32,
)
    requires
        valid_access_size(size),
        in_data_window(state.port_base, port),
    ensures
        read_step(state, port, size).0.pending is None,
        write_step(state, port, size, value).0.pending is None,
{
}

/// No read changes the registered devices.
pub proof fn lemma_read_keeps_devices(state: ConfigSpaceView, port: u16, size: u8)
    ensures
        read_step(state, port, size).0.devices == state.devices,
{
}

/// A read through the data window of a device that is not registered
/// returns all ones, and a write there changes no device.
pub proof fn lemma_absent_device(state: ConfigSpaceView, port: u16, size: u8, value: u32)
    requires
        valid_access_size(size),
        in_data_window(state.port_base, port),
        state.pending is Some,
        !state.devices.contains_key(selector_key(state.pending.unwrap())),
    ensures
        read_step(state, port, size).1 == Ok::<u32, HyperError>(all_ones(size)),
        write_step(state, port, size, value).0.devices == state.devices,
{
}

/// A read through the data window at an offset behind the header that no
/// capability's range contains returns all ones.
pub proof fn lemma_uncovered_offset_reads_ones(state: ConfigSpaceView, port: u16, size: u8)
    requires
        valid_access_size(size),
        in_data_window(state.port_base, port),
        state.pending is Some,
        state.devices.contains_key(selector_key(state.pending.unwrap())),
        ({
            let selector = state.pending.unwrap();
            let offset = config_offset(selector, (port - state.port_base - 4) as u16, size);
            let device = state.devices[selector_key(selector)];
            &&& offset >= 0x40
            &&& forall|k: (u8, u8)| #[trigger]
                device.capabilities.contains_key(k) ==> !covers(k, offset)
        }),
    ensures
        read_step(state, port, size).1 == Ok::<u32, HyperError>(all_ones(size)),
{
    let selector = state.pending.unwrap();
    let offset = config_offset(selector, (port - state.port_base - 4) as u16, size);
    let device = state.devices[selector_key(selector)];
    lemma_uncovered_offset_misses(device, offset, size);
}

/// The guest writes `value` and reads it back: it selects a registered
/// device and an offset, writes through the data window, selects the same
/// again and reads through the same port with the same size. The read
/// returns what was written, or the size mask after a sizing probe of a
/// base address register, where the access is in the header or falls into
/// a capability.
pub proof fn lemma_guest_write_then_read(
    state: ConfigSpaceView,
    selector: u32,
    port: u16,
    size: u8,
    value: u32,
)
    requires
        valid_access_size(size),
        in_data_window(state.port_base, port),
        state.devices.contains_key(selector_key(selector)),
        device_valid(state.devices[selector_key(selector)]),
        ({
            let offset = config_offset(selector, (port - state.port_base - 4) as u16, size);
            offset >= 0x40 ==> access_meets(state.devices[selector_key(selector)], offset, size)
        }),
    ensures
        ({
            let offset = config_offset(selector, (port - state.port_base - 4) as u16, size);
            let device = state.devices[selector_key(selector)];
            let selected = write_step(state, state.port_base, 4, selector).0;
            let written = write_step(selected, port, size, value).0;
            let reselected = write_step(written, state.port_base, 4, selector).0;
            read_step(reselected, port, size).1 == Ok::<u32, HyperError>(
                read_back(device, offset, size, value),
            )
        }),
{
    let position = (port - state.port_base - 4) as u16;
    let offset = config_offset(selector, position, size);
    let device = state.devices[selector_key(selector)];
    lemma_config_offset_aligned(selector, position, size);
    lemma_write_then_read(device, offset, size, value);
}

} // verus!
