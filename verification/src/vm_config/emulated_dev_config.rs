//! The emulated devices of a guest.

use vstd::prelude::*;
use crate::text::str_eq;
use crate::vm_config::{MAX_BASE_CNT, NAME_MAX_LENGTH};

verus! {

/// The number of emulated devices that a guest can have.
pub const MAX_EMU_DEVICE_PER_VM: usize = 32;

/// The kinds of emulated devices.
#[derive(Clone, Copy, Debug, PartialEq, Eq, Structural)]
pub enum EmuDeviceType {
    /// The interrupt controller.
    EmuDevicePIC,
    /// The PCI configuration-space controller.
    EmuDevicePCI,
    /// The debug port.
    EmuDeviceDebugPort,
    /// A serial port.
    EmuDeviceUart16550,
    /// The interval timer.
    EmuDevicePit,
    /// The real-time clock and its memory.
    EmuDeviceCmos,
    /// A device that answers and does nothing.
    EmuDeviceDummy,
    /// The local APIC, reached through its registers.
    EmuDeviceVirtialLocalApic,
    /// The APIC base register.
    EmuDeviceApic,
}

/// How a device is reached.
#[derive(Clone, Copy, Debug, PartialEq, Eq, Structural)]
pub enum DeviceType {
    /// Through I/O ports.
    Pio,
    /// Through model-specific registers.
    Msr,
}

/// An emulated device of a guest.
#[derive(Clone, Debug)]
pub struct VmEmulatedDeviceConfig {
    /// The device's name.
    pub name: Option<heapless::String<NAME_MAX_LENGTH>>,
    /// The kind of device.
    pub emu_type: EmuDeviceType,
    /// How the device is reached.
    pub device_type: DeviceType,
    /// Where each of the device's windows starts.
    pub base: heapless::Vec<usize, MAX_BASE_CNT>,
    /// How long each of the device's windows is.
    pub range: heapless::Vec<usize, MAX_BASE_CNT>,
}

/// What a list of emulated devices holds, in order.
pub uninterp spec fn emulated_configs(
    list: heapless::Vec<VmEmulatedDeviceConfig, MAX_EMU_DEVICE_PER_VM>,
) -> Seq<VmEmulatedDeviceConfig>;

/// `heapless::Vec::new` for a list of emulated devices: the list is empty.
#[verifier::external_body]
pub(crate) fn emulated_configs_new() -> (list: heapless::Vec<
    VmEmulatedDeviceConfig,
    MAX_EMU_DEVICE_PER_VM,
>)
    ensures
        emulated_configs(list) == Seq::<VmEmulatedDeviceConfig>::empty(),
{
    heapless::Vec::new()
}

/// `heapless::Vec::push` on a list of emulated devices: a list that is not
/// full takes the device at its end; a full list stays as it is and hands
/// the device back.
#[verifier::external_body]
pub(crate) fn emulated_configs_push(
    list: &mut heapless::Vec<VmEmulatedDeviceConfig, MAX_EMU_DEVICE_PER_VM>,
    device: VmEmulatedDeviceConfig,
) -> (result: Result<(), VmEmulatedDeviceConfig>)
    ensures
        match result {
            Ok(_) => emulated_configs(*old(list)).len() < MAX_EMU_DEVICE_PER_VM
                && emulated_configs(*final(list)) == emulated_configs(*old(list)).push(device),
            Err(back) => emulated_configs(*old(list)).len() >= MAX_EMU_DEVICE_PER_VM && back
                == device && emulated_configs(*final(list)) == emulated_configs(*old(list)),
        },
{
    list.push(device)
}

/// `heapless::Vec::as_slice` on a list of emulated devices: the slice
/// holds what the list holds, which is no more than the list's capacity.
#[verifier::external_body]
pub(crate) fn emulated_configs_slice(
    list: &heapless::Vec<VmEmulatedDeviceConfig, MAX_EMU_DEVICE_PER_VM>,
) -> (slice: &[VmEmulatedDeviceConfig])
    ensures
        slice@ == emulated_configs(*list),
        slice@.len() <= MAX_EMU_DEVICE_PER_VM,
{
    list.as_slice()
}

impl VmEmulatedDeviceConfig {
    /// The device with the given values.
    pub fn new(
        name: Option<heapless::String<NAME_MAX_LENGTH>>,
        emu_type: EmuDeviceType,
        device_type: DeviceType,
        base: heapless::Vec<usize, MAX_BASE_CNT>,
        range: heapless::Vec<usize, MAX_BASE_CNT>,
    ) -> (config: Self)
        ensures
            config == (VmEmulatedDeviceConfig { name, emu_type, device_type, base, range }),
    {
        Self { name, emu_type, device_type, base, range }
    }
}

/// The emulated devices of a guest.
#[derive(Clone, Debug)]
pub struct VmEmulatedDeviceConfigList {
    /// The devices, in the order in which they were added.
    pub emu_dev_list: heapless::Vec<VmEmulatedDeviceConfig, MAX_EMU_DEVICE_PER_VM>,
}

impl VmEmulatedDeviceConfigList {
    /// The devices, in order.
    pub open spec fn devices(&self) -> Seq<VmEmulatedDeviceConfig> {
        emulated_configs(self.emu_dev_list)
    }

    /// A list without devices.
    pub fn default() -> (list: VmEmulatedDeviceConfigList)
        ensures
            list.devices() == Seq::<VmEmulatedDeviceConfig>::empty(),
    {
        VmEmulatedDeviceConfigList { emu_dev_list: emulated_configs_new() }
    }

    /// Adds `device` behind the devices that are there. A list that holds
    /// `MAX_EMU_DEVICE_PER_VM` devices is full: it stays as it is and
    /// hands the device back.
    pub fn add_device_config(&mut self, device: VmEmulatedDeviceConfig) -> (result: Result<
        (),
        VmEmulatedDeviceConfig,
    >)
        ensures
            match result {
                Ok(_) => old(self).devices().len() < MAX_EMU_DEVICE_PER_VM && final(self).devices() == old(self).devices().push(device),
                Err(back) => old(self).devices().len() >= MAX_EMU_DEVICE_PER_VM && back == device
                    && final(self).devices() == old(self).devices(),
            },
    {
        emulated_configs_push(&mut self.emu_dev_list, device)
    }
}

/// The kind of emulated device that a configuration calls `name`, if it
/// is the name of a kind.
pub open spec fn emu_device_type_named(name: Seq<char>) -> Option<EmuDeviceType> {
    if name == "pic"@ {
        Some(EmuDeviceType::EmuDevicePIC)
    } else if name == "pci"@ {
        Some(EmuDeviceType::EmuDevicePCI)
    } else if name == "debug_port"@ {
        Some(EmuDeviceType::EmuDeviceDebugPort)
    } else if name == "uart16550"@ {
        Some(EmuDeviceType::EmuDeviceUart16550)
    } else if name == "apic"@ {
        Some(EmuDeviceType::EmuDeviceApic)
    } else if name == "virtual_apic"@ {
        Some(EmuDeviceType::EmuDeviceVirtialLocalApic)
    } else if name == "pit"@ {
        Some(EmuDeviceType::EmuDevicePit)
    } else if name == "cmos"@ {
        Some(EmuDeviceType::EmuDeviceCmos)
    } else if name == "dummy"@ {
        Some(EmuDeviceType::EmuDeviceDummy)
    } else {
        None
    }
}

/// The kind of emulated device that a configuration calls `value`, if it
/// is the name of a kind.
pub fn from_emu_device_type(value: &str) -> (kind: Option<EmuDeviceType>)
    ensures
        kind == emu_device_type_named(value@),
{
    if str_eq(value, "pic") {
        Some(EmuDeviceType::EmuDevicePIC)
    } else if str_eq(value, "pci") {
        Some(EmuDeviceType::EmuDevicePCI)
    } else if str_eq(value, "debug_port") {
        Some(EmuDeviceType::EmuDeviceDebugPort)
    } else if str_eq(value, "uart16550") {
        Some(EmuDeviceType::EmuDeviceUart16550)
    } else if str_eq(value, "apic") {
        Some(EmuDeviceType::EmuDeviceApic)
    } else if str_eq(value, "virtual_apic") {
        Some(EmuDeviceType::EmuDeviceVirtialLocalApic)
    } else if str_eq(value, "pit") {
        Some(EmuDeviceType::EmuDevicePit)
    } else if str_eq(value, "cmos") {
        Some(EmuDeviceType::EmuDeviceCmos)
    } else if str_eq(value, "dummy") {
        Some(EmuDeviceType::EmuDeviceDummy)
    } else {
        None
    }
}

/// The way of reaching a device that a configuration calls `name`: `pio`
/// for ports, and `mmio` for model-specific registers.
pub open spec fn device_type_named(name: Seq<char>) -> Option<DeviceType> {
    if name == "pio"@ {
        Some(DeviceType::Pio)
    } else if name == "mmio"@ {
        Some(DeviceType::Msr)
    } else {
        None
    }
}

/// The way of reaching a device that a configuration calls `value`, if it
/// is the name of one.
pub fn from_device_type(value: &str) -> (kind: Option<DeviceType>)
    ensures
        kind == device_type_named(value@),
{
    if str_eq(value, "pio") {
        Some(DeviceType::Pio)
    } else if str_eq(value, "mmio") {
        Some(DeviceType::Msr)
    } else {
        None
    }
}

} // verus!
