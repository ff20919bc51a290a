//! The devices that are passed through to a guest.

use vstd::prelude::*;
use crate::pci_dev::PCIDevice;
use crate::text::str_eq;
use crate::vm_config::memory_config::VmMemoryRegion;
use crate::vm_config::MAX_BASE_CNT;

verus! {

/// The number of passed-through devices that a guest can have.
pub const MAX_PASSTHROUGH_DEVICE_PER_VM: usize = 32;

/// The header type of a PCI device that is no bridge.
pub const PCI_TYPE_DEVICE: u8 = 0x01;

/// The header type of a PCI bridge.
pub const PCI_TYPE_BRIDGE: u8 = 0x02;

/// The number of memory regions that a PCI device can have.
pub const MAX_PCI_DEVICE_MEM_REGION_CNT: usize = 4;

/// The kinds of devices that are passed through to the guest.
#[derive(Clone, Copy, Debug, PartialEq, Eq, Structural)]
pub enum PassthroughDeviceType {
    /// A PCI device.
    PCI,
    /// A region of memory-mapped registers.
    MMIO,
    /// A range of I/O ports.
    PORT,
}

/// A range of I/O ports that is passed through to the guest.
#[derive(Clone, Debug)]
pub struct PortDevice {
    /// Where each of the device's windows starts.
    pub base: heapless::Vec<usize, MAX_BASE_CNT>,
    /// How long each of the device's windows is.
    pub range: heapless::Vec<usize, MAX_BASE_CNT>,
}

/// A device that is passed through to the guest: of the three
/// descriptions, the one that its kind calls for.
#[derive(Clone, Debug)]
pub struct VmPassthroughDeviceConfig {
    /// The region of a device of memory-mapped registers.
    pub mmio: Option<VmMemoryRegion>,
    /// The configuration space of a PCI device.
    pub pci: Option<PCIDevice>,
    /// The ports of a port device.
    pub port: Option<PortDevice>,
    /// The kind of device.
    pub device_type: PassthroughDeviceType,
}

/// What a list of passed-through devices holds, in order.
pub uninterp spec fn passthrough_configs(
    list: heapless::Vec<VmPassthroughDeviceConfig, MAX_PASSTHROUGH_DEVICE_PER_VM>,
) -> Seq<VmPassthroughDeviceConfig>;

/// `heapless::Vec::new` for a list of passed-through devices: the list is
/// empty.
#[verifier::external_body]
pub(crate) fn passthrough_configs_new() -> (list: heapless::Vec<
    VmPassthroughDeviceConfig,
    MAX_PASSTHROUGH_DEVICE_PER_VM,
>)
    ensures
        passthrough_configs(list) == Seq::<VmPassthroughDeviceConfig>::empty(),
{
    heapless::Vec::new()
}

/// `heapless::Vec::push` on a list of passed-through devices: a list that
/// is not full takes the device at its end; a full list stays as it is and
/// hands the device back.
#[verifier::external_body]
pub(crate) fn passthrough_configs_push(
    list: &mut heapless::Vec<VmPassthroughDeviceConfig, MAX_PASSTHROUGH_DEVICE_PER_VM>,
    device: VmPassthroughDeviceConfig,
) -> (result: Result<(), VmPassthroughDeviceConfig>)
    ensures
        match result {
            Ok(_) => passthrough_configs(*old(list)).len() < MAX_PASSTHROUGH_DEVICE_PER_VM
                && passthrough_configs(*final(list)) == passthrough_configs(*old(list)).push(
                device,
            ),
            Err(back) => passthrough_configs(*old(list)).len() >= MAX_PASSTHROUGH_DEVICE_PER_VM
                && back == device && passthrough_configs(*final(list)) == passthrough_configs(
                *old(list),
            ),
        },
{
    list.push(device)
}

/// `heapless::Vec::as_slice` on a list of passed-through devices: the
/// slice holds what the list holds, which is no more than the list's
/// capacity.
#[verifier::external_body]
pub(crate) fn passthrough_configs_slice(
    list: &heapless::Vec<VmPassthroughDeviceConfig, MAX_PASSTHROUGH_DEVICE_PER_VM>,
) -> (slice: &[VmPassthroughDeviceConfig])
    ensures
        slice@ == passthrough_configs(*list),
        slice@.len() <= MAX_PASSTHROUGH_DEVICE_PER_VM,
{
    list.as_slice()
}

impl VmPassthroughDeviceConfig {
    /// A passed-through device of the kind `device_type`: it keeps the
    /// description that its kind calls for, and drops the other two.
    pub fn new(
        device_type: PassthroughDeviceType,
        pci: Option<PCIDevice>,
        mmio: Option<VmMemoryRegion>,
        port: Option<PortDevice>,
    ) -> (config: Self)
        ensures
            config == match device_type {
                PassthroughDeviceType::MMIO => VmPassthroughDeviceConfig {
                    mmio,
                    pci: None,
                    port: None,
                    device_type,
                },
                PassthroughDeviceType::PCI => VmPassthroughDeviceConfig {
                    mmio: None,
                    pci,
                    port: None,
                    device_type,
                },
                PassthroughDeviceType::PORT => VmPassthroughDeviceConfig {
                    mmio: None,
                    pci: None,
                    port,
                    device_type,
                },
            },
    {
        match device_type {
            PassthroughDeviceType::MMIO => VmPassthroughDeviceConfig {
                mmio,
                pci: None,
                port: None,
                device_type,
            },
            PassthroughDeviceType::PCI => VmPassthroughDeviceConfig {
                mmio: None,
                pci,
                port: None,
                device_type,
            },
            PassthroughDeviceType::PORT => VmPassthroughDeviceConfig {
                mmio: None,
                pci: None,
                port,
                device_type,
            },
        }
    }
}

/// The passed-through devices of a guest.
#[derive(Clone, Debug)]
pub struct VmPassthroughDeviceConfigList {
    /// The devices, in the order in which they were added.
    pub passthrough_dev_list: heapless::Vec<
        VmPassthroughDeviceConfig,
        MAX_PASSTHROUGH_DEVICE_PER_VM,
    >,
}

impl VmPassthroughDeviceConfigList {
    /// The devices, in order.
    pub open spec fn devices(&self) -> Seq<VmPassthroughDeviceConfig> {
        passthrough_configs(self.passthrough_dev_list)
    }

    /// A list without devices.
    pub fn default() -> (list: VmPassthroughDeviceConfigList)
        ensures
            list.devices() == Seq::<VmPassthroughDeviceConfig>::empty(),
    {
        VmPassthroughDeviceConfigList { passthrough_dev_list: passthrough_configs_new() }
    }

    /// Adds `device` behind the devices that are there. A list that holds
    /// `MAX_PASSTHROUGH_DEVICE_PER_VM` devices is full: it stays as it is
    /// and hands the device back.
    pub fn add_device_config(&mut self, device: VmPassthroughDeviceConfig) -> (result: Result<
        (),
        VmPassthroughDeviceConfig,
    >)
        ensures
            match result {
                Ok(_) => old(self).devices().len() < MAX_PASSTHROUGH_DEVICE_PER_VM && final(self).devices() == old(self).devices().push(device),
                Err(back) => old(self).devices().len() >= MAX_PASSTHROUGH_DEVICE_PER_VM && back
                    == device && final(self).devices() == old(self).devices(),
            },
    {
        passthrough_configs_push(&mut self.passthrough_dev_list, device)
    }
}

/// The kind of passed-through device that a configuration calls `name`,
/// if it is the name of a kind.
pub open spec fn passthrough_device_type_named(name: Seq<char>) -> Option<PassthroughDeviceType> {
    if name == "pci"@ {
        Some(PassthroughDeviceType::PCI)
    } else if name == "mmio"@ {
        Some(PassthroughDeviceType::MMIO)
    } else if name == "port"@ {
        Some(PassthroughDeviceType::PORT)
    } else {
        None
    }
}

/// The kind of passed-through device that a configuration calls `value`,
/// if it is the name of a kind.
pub fn from_device_type(value: &str) -> (kind: Option<PassthroughDeviceType>)
    ensures
        kind == passthrough_device_type_named(value@),
{
    if str_eq(value, "pci") {
        Some(PassthroughDeviceType::PCI)
    } else if str_eq(value, "mmio") {
        Some(PassthroughDeviceType::MMIO)
    } else if str_eq(value, "port") {
        Some(PassthroughDeviceType::PORT)
    } else {
        None
    }
}

} // verus!
