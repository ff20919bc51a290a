//! From a guest's configuration to its devices: which devices the
//! configuration calls for, at which addresses, and which PCI devices the
//! registry is to hold.

use vstd::prelude::*;
use crate::error::HyperError;
use crate::pci_dev::DeviceView;
use crate::pci_registry::{bdf_key, registrable, valid_bdf, PciRegistry};
use crate::vm_config::emulated_dev_config::{
    emulated_configs_slice, DeviceType, EmuDeviceType, VmEmulatedDeviceConfig,
    VmEmulatedDeviceConfigList,
};
use crate::vm_config::passthrough_dev_config::{
    passthrough_configs_slice, PassthroughDeviceType, VmPassthroughDeviceConfig,
    VmPassthroughDeviceConfigList,
};
use crate::vm_config::{port_numbers, port_numbers_slice};

verus! {

/// A device that a configuration calls for, with the window that it owns:
/// `range` addresses from `base` on.
#[derive(Clone, Copy, Debug, PartialEq, Eq, Structural)]
pub enum PlannedDevice {
    /// An interrupt controller.
    Pic { base: u16, range: u16 },
    /// The PCI configuration-space controller.
    PciConfigurationSpace { base: u16, range: u16 },
    /// The debug port.
    DebugPort { base: u16, range: u16 },
    /// A serial port.
    Uart16550 { base: u16, range: u16 },
    /// A port device that answers and does nothing.
    Dummy { base: u16, range: u16 },
    /// An MSR device that answers and does nothing.
    MsrDummy { base: u32, range: u32 },
    /// Ports that are passed through to the machine.
    PortPassthrough { base: u16, range: u16 },
}

/// The kinds of port devices that a configuration can call for.
#[derive(Clone, Copy, Debug, PartialEq, Eq, Structural)]
pub enum PortDeviceKind {
    /// An interrupt controller.
    Pic,
    /// The PCI configuration-space controller.
    PciConfigurationSpace,
    /// The debug port.
    DebugPort,
    /// A serial port.
    Uart16550,
    /// A port device that answers and does nothing.
    Dummy,
    /// Ports that are passed through to the machine.
    PortPassthrough,
}

/// The port device of the given kind and window.
pub open spec fn port_device(kind: PortDeviceKind, base: u16, range: u16) -> PlannedDevice {
    match kind {
        PortDeviceKind::Pic => PlannedDevice::Pic { base, range },
        PortDeviceKind::PciConfigurationSpace => PlannedDevice::PciConfigurationSpace {
            base,
            range,
        },
        PortDeviceKind::DebugPort => PlannedDevice::DebugPort { base, range },
        PortDeviceKind::Uart16550 => PlannedDevice::Uart16550 { base, range },
        PortDeviceKind::Dummy => PlannedDevice::Dummy { base, range },
        PortDeviceKind::PortPassthrough => PlannedDevice::PortPassthrough { base, range },
    }
}

/// Whether the window `index` of a device with the given bases and ranges
/// is a window of ports: both lists reach that far, and the window ends
/// within the port numbers.
pub open spec fn port_window_valid(bases: Seq<usize>, ranges: Seq<usize>, index: int) -> bool {
    &&& 0 <= index < bases.len()
    &&& index < ranges.len()
    &&& bases[index] + ranges[index] <= u16::MAX
}

/// Whether the window `index` of a device with the given bases and ranges
/// is a window of model-specific registers.
pub open spec fn msr_window_valid(bases: Seq<usize>, ranges: Seq<usize>, index: int) -> bool {
    &&& 0 <= index < bases.len()
    &&& index < ranges.len()
    &&& bases[index] + ranges[index] <= u32::MAX
}

/// One port device of the given kind for each of the first `count`
/// windows, in order.
pub open spec fn port_devices(
    kind: PortDeviceKind,
    bases: Seq<usize>,
    ranges: Seq<usize>,
    count: int,
) -> Seq<PlannedDevice> {
    Seq::new(
        count as nat,
        |i: int| port_device(kind, bases[i] as u16, ranges[i] as u16),
    )
}

/// What an emulated device's configuration calls for.
#[derive(Clone, Copy, Debug, PartialEq, Eq, Structural)]
pub enum EmulatedDemand {
    /// No device: the kind is one that is set up without a configuration.
    Nothing,
    /// One port device of the given kind, at the first window.
    OnePort(PortDeviceKind),
    /// One port device of the given kind at every window.
    EveryPort(PortDeviceKind),
    /// One MSR device that answers and does nothing, at the first window.
    OneMsr,
}

/// What an emulated device of the given kind, reached in the given way,
/// calls for.
pub open spec fn demand_of(emu_type: EmuDeviceType, device_type: DeviceType) -> EmulatedDemand {
    match emu_type {
        EmuDeviceType::EmuDevicePIC => EmulatedDemand::EveryPort(PortDeviceKind::Pic),
        EmuDeviceType::EmuDevicePCI => EmulatedDemand::OnePort(
            PortDeviceKind::PciConfigurationSpace,
        ),
        EmuDeviceType::EmuDeviceDebugPort => EmulatedDemand::OnePort(PortDeviceKind::DebugPort),
        EmuDeviceType::EmuDeviceUart16550 => EmulatedDemand::EveryPort(PortDeviceKind::Uart16550),
        EmuDeviceType::EmuDeviceDummy => match device_type {
            DeviceType::Pio => EmulatedDemand::OnePort(PortDeviceKind::Dummy),
            DeviceType::Msr => EmulatedDemand::OneMsr,
        },
        EmuDeviceType::EmuDevicePit => EmulatedDemand::Nothing,
        EmuDeviceType::EmuDeviceCmos => EmulatedDemand::Nothing,
        EmuDeviceType::EmuDeviceVirtialLocalApic => EmulatedDemand::Nothing,
        EmuDeviceType::EmuDeviceApic => EmulatedDemand::Nothing,
    }
}

/// The devices that a demand comes to with the given windows, or `None`
/// where a window that the demand needs is missing or no window of the
/// right kind.
pub open spec fn demanded_devices(demand: EmulatedDemand, bases: Seq<usize>, ranges: Seq<usize>) -> Option<
    Seq<PlannedDevice>,
> {
    match demand {
        EmulatedDemand::Nothing => Some(Seq::empty()),
        EmulatedDemand::OnePort(kind) => if port_window_valid(bases, ranges, 0) {
            Some(port_devices(kind, bases, ranges, 1))
        } else {
            None
        },
        EmulatedDemand::EveryPort(kind) => if forall|i: int|
            0 <= i < bases.len() ==> port_window_valid(bases, ranges, i) {
            Some(port_devices(kind, bases, ranges, bases.len() as int))
        } else {
            None
        },
        EmulatedDemand::OneMsr => if msr_window_valid(bases, ranges, 0) {
            Some(seq![PlannedDevice::MsrDummy { base: bases[0] as u32, range: ranges[0] as u32 }])
        } else {
            None
        },
    }
}

/// The devices that the configuration of an emulated device calls for, or
/// `None` where the configuration is malformed.
pub open spec fn emulated_devices(config: VmEmulatedDeviceConfig) -> Option<Seq<PlannedDevice>> {
    demanded_devices(
        demand_of(config.emu_type, config.device_type),
        port_numbers(config.base),
        port_numbers(config.range),
    )
}

/// What a guest's configuration comes to: the devices to set up, in the
/// order of the configuration, and the PCI devices to register.
pub struct PlanView {
    /// The devices to set up.
    pub devices: Seq<PlannedDevice>,
    /// The PCI devices to register, each under its key.
    pub registry: Map<u32, DeviceView>,
}

/// The plan `plan` extended by what the emulated devices `configs` call
/// for, or the error at the first that is malformed: an invalid
/// parameter.
pub open spec fn with_emulated(plan: PlanView, configs: Seq<VmEmulatedDeviceConfig>) -> Result<
    PlanView,
    HyperError,
>
    decreases configs.len(),
{
    if configs.len() == 0 {
        Ok(plan)
    } else {
        match emulated_devices(configs[0]) {
            Some(devices) => with_emulated(
                PlanView { devices: plan.devices + devices, ..plan },
                configs.drop_first(),
            ),
            None => Err(HyperError::InvalidParam),
        }
    }
}

/// The plan `plan` extended by what one passed-through device calls for.
///
/// A PCI device is registered, and refused as the registry refuses it; a
/// port device comes to passed-through ports at its first window; a device
/// of memory-mapped registers comes to nothing here. A device without the
/// description that its kind calls for, or without a port window, is an
/// invalid parameter.
pub open spec fn with_passthrough_device(plan: PlanView, config: VmPassthroughDeviceConfig) -> Result<
    PlanView,
    HyperError,
> {
    match config.device_type {
        PassthroughDeviceType::PCI => match config.pci {
            Some(device) => {
                let key = bdf_key(device.bus, device.slot, device.func);
                if !valid_bdf(device.bus, device.slot, device.func) {
                    Err(HyperError::InvalidParam)
                } else if plan.registry.contains_key(key) {
                    Err(HyperError::OutOfRange)
                } else if !registrable(device@) {
                    Err(HyperError::BadState)
                } else {
                    Ok(PlanView { registry: plan.registry.insert(key, device@), ..plan })
                }
            },
            None => Err(HyperError::InvalidParam),
        },
        PassthroughDeviceType::PORT => match config.port {
            Some(port) => if port_window_valid(
                port_numbers(port.base),
                port_numbers(port.range),
                0,
            ) {
                Ok(
                    PlanView {
                        devices: plan.devices + port_devices(
                            PortDeviceKind::PortPassthrough,
                            port_numbers(port.base),
                            port_numbers(port.range),
                            1,
                        ),
                        ..plan
                    },
                )
            } else {
                Err(HyperError::InvalidParam)
            },
            None => Err(HyperError::InvalidParam),
        },
        PassthroughDeviceType::MMIO => Ok(plan),
    }
}

/// The plan `plan` extended by what the passed-through devices `configs`
/// call for, or the error at the first that is refused.
pub open spec fn with_passthrough(plan: PlanView, configs: Seq<VmPassthroughDeviceConfig>) -> Result<
    PlanView,
    HyperError,
>
    decreases configs.len(),
{
    if configs.len() == 0 {
        Ok(plan)
    } else {
        match with_passthrough_device(plan, configs[0]) {
            Ok(next) => with_passthrough(next, configs.drop_first()),
            Err(e) => Err(e),
        }
    }
}

/// What the emulated devices `emulated` and the passed-through devices
/// `passthrough` come to, the emulated devices first.
pub open spec fn planned(
    emulated: Seq<VmEmulatedDeviceConfig>,
    passthrough: Seq<VmPassthroughDeviceConfig>,
) -> Result<PlanView, HyperError> {
    match with_emulated(PlanView { devices: Seq::empty(), registry: Map::empty() }, emulated) {
        Ok(plan) => with_passthrough(plan, passthrough),
        Err(e) => Err(e),
    }
}

/// Planning the emulated devices goes device by device.
pub proof fn lemma_with_emulated_step(plan: PlanView, configs: Seq<VmEmulatedDeviceConfig>)
    requires
        configs.len() > 0,
    ensures
        with_emulated(plan, configs) == match emulated_devices(configs[0]) {
            Some(devices) => with_emulated(
                PlanView { devices: plan.devices + devices, ..plan },
                configs.drop_first(),
            ),
            None => Err::<PlanView, HyperError>(HyperError::InvalidParam),
        },
{
}

/// Planning the passed-through devices goes device by device.
pub proof fn lemma_with_passthrough_step(plan: PlanView, configs: Seq<VmPassthroughDeviceConfig>)
    requires
        configs.len() > 0,
    ensures
        with_passthrough(plan, configs) == match with_passthrough_device(plan, configs[0]) {
            Ok(next) => with_passthrough(next, configs.drop_first()),
            Err(e) => Err::<PlanView, HyperError>(e),
        },
{
}

/// What a guest's configuration comes to.
#[derive(Debug)]
pub struct DevicePlan {
    /// The devices to set up, in the order of the configuration: the
    /// emulated devices first.
    pub devices: Vec<PlannedDevice>,
    /// The registry of the guest's PCI devices.
    pub registry: PciRegistry,
}

impl View for DevicePlan {
    type V = PlanView;

    open spec fn view(&self) -> PlanView {
        PlanView { devices: self.devices@, registry: self.registry@ }
    }
}

/// The window `index` of a device with the given bases and ranges, if it
/// is a window of ports.
fn port_window(bases: &[usize], ranges: &[usize], index: usize) -> (window: Option<(u16, u16)>)
    ensures
        match window {
            Some((base, range)) => port_window_valid(bases@, ranges@, index as int) && base
                == bases@[index as int] && range == ranges@[index as int],
            None => !port_window_valid(bases@, ranges@, index as int),
        },
{
    if index < bases.len() && index < ranges.len() {
        let base: usize = bases[index];
        let range: usize = ranges[index];
        if base <= 0xffff && range <= 0xffff - base {
            return Some((base as u16, range as u16));
        }
    }
    None
}

/// The port device of the given kind and window.
fn make_port_device(kind: PortDeviceKind, base: u16, range: u16) -> (device: PlannedDevice)
    ensures
        device == port_device(kind, base, range),
{
    match kind {
        PortDeviceKind::Pic => PlannedDevice::Pic { base, range },
        PortDeviceKind::PciConfigurationSpace => PlannedDevice::PciConfigurationSpace {
            base,
            range,
        },
        PortDeviceKind::DebugPort => PlannedDevice::DebugPort { base, range },
        PortDeviceKind::Uart16550 => PlannedDevice::Uart16550 { base, range },
        PortDeviceKind::Dummy => PlannedDevice::Dummy { base, range },
        PortDeviceKind::PortPassthrough => PlannedDevice::PortPassthrough { base, range },
    }
}

/// What an emulated device of the given kind, reached in the given way,
/// calls for.
pub fn emulated_demand(emu_type: EmuDeviceType, device_type: DeviceType) -> (demand: EmulatedDemand)
    ensures
        demand == demand_of(emu_type, device_type),
{
    match emu_type {
        EmuDeviceType::EmuDevicePIC => EmulatedDemand::EveryPort(PortDeviceKind::Pic),
        EmuDeviceType::EmuDevicePCI => EmulatedDemand::OnePort(
            PortDeviceKind::PciConfigurationSpace,
        ),
        EmuDeviceType::EmuDeviceDebugPort => EmulatedDemand::OnePort(PortDeviceKind::DebugPort),
        EmuDeviceType::EmuDeviceUart16550 => EmulatedDemand::EveryPort(PortDeviceKind::Uart16550),
        EmuDeviceType::EmuDeviceDummy => match device_type {
            DeviceType::Pio => EmulatedDemand::OnePort(PortDeviceKind::Dummy),
            DeviceType::Msr => EmulatedDemand::OneMsr,
        },
        EmuDeviceType::EmuDevicePit => EmulatedDemand::Nothing,
        EmuDeviceType::EmuDeviceCmos => EmulatedDemand::Nothing,
        EmuDeviceType::EmuDeviceVirtialLocalApic => EmulatedDemand::Nothing,
        EmuDeviceType::EmuDeviceApic => EmulatedDemand::Nothing,
    }
}

/// The devices that `demand` comes to with the windows that `bases` and
/// `ranges` give, or `None` where a window that the demand needs is
/// missing or no window of the right kind.
pub fn devices_for(demand: EmulatedDemand, bases: &[usize], ranges: &[usize]) -> (devices: Option<
    Vec<PlannedDevice>,
>)
    ensures
        match demanded_devices(demand, bases@, ranges@) {
            Some(expected) => devices is Some && devices.unwrap()@ == expected,
            None => devices is None,
        },
{
    let mut devices: Vec<PlannedDevice> = Vec::new();
    match demand {
        EmulatedDemand::Nothing => {},
        EmulatedDemand::OnePort(kind) => {
            match port_window(bases, ranges, 0) {
                Some((base, range)) => {
                    devices.push(make_port_device(kind, base, range));
                    assert(devices@ =~= port_devices(kind, bases@, ranges@, 1));
                },
                None => {
                    return None;
                },
            }
        },
        EmulatedDemand::EveryPort(kind) => {
            let mut i: usize = 0;
            while i < bases.len()
                invariant
                    i <= bases@.len(),
                    demand == EmulatedDemand::EveryPort(kind),
                    forall|j: int| 0 <= j < i ==> port_window_valid(bases@, ranges@, j),
                    devices@ == port_devices(kind, bases@, ranges@, i as int),
                decreases bases@.len() - i,
            {
                match port_window(bases, ranges, i) {
                    Some((base, range)) => {
                        devices.push(make_port_device(kind, base, range));
                    },
                    None => {
                        assert(!port_window_valid(bases@, ranges@, i as int));
                        return None;
                    },
                }
                i += 1;
                assert(devices@ =~= port_devices(kind, bases@, ranges@, i as int));
            }
        },
        EmulatedDemand::OneMsr => {
            if 0 < bases.len() && 0 < ranges.len() && bases[0] <= 0xffff_ffff && ranges[0]
                <= 0xffff_ffff - bases[0] {
                devices.push(PlannedDevice::MsrDummy { base: bases[0] as u32, range: ranges[0] as u32 });
                assert(devices@ =~= seq![
                    PlannedDevice::MsrDummy { base: bases@[0] as u32, range: ranges@[0] as u32 },
                ]);
            } else {
                return None;
            }
        },
    }
    Some(devices)
}

/// Extends `plan` by what one passed-through device calls for; a refused
/// device leaves the plan as it is.
fn plan_passthrough_device(plan: &mut DevicePlan, config: &VmPassthroughDeviceConfig) -> (result:
    Result<(), HyperError>)
    ensures
        match with_passthrough_device(old(plan)@, *config) {
            Ok(next) => result is Ok && final(plan)@ == next,
            Err(e) => result == Err::<(), HyperError>(e) && final(plan)@ == old(plan)@,
        },
{
    match config.device_type {
        PassthroughDeviceType::PCI => match &config.pci {
            Some(device) => {
                let registered = plan.registry.register(device.clone());
                match registered {
                    Ok(_) => Ok(()),
                    Err(e) => Err(e),
                }
            },
            None => Err(HyperError::InvalidParam),
        },
        PassthroughDeviceType::PORT => match &config.port {
            Some(port) => {
                let bases = port_numbers_slice(&port.base);
                let ranges = port_numbers_slice(&port.range);
                let demand = EmulatedDemand::OnePort(PortDeviceKind::PortPassthrough);
                match devices_for(demand, bases, ranges) {
                    Some(mut devices) => {
                        plan.devices.append(&mut devices);
                        Ok(())
                    },
                    None => Err(HyperError::InvalidParam),
                }
            },
            None => Err(HyperError::InvalidParam),
        },
        PassthroughDeviceType::MMIO => Ok(()),
    }
}

/// What a guest's configuration comes to: the devices that its emulated
/// and its passed-through devices call for, in that order, and the
/// registry of its PCI devices. The first device that is malformed or
/// refused ends the planning with its error.
pub fn plan_devices(
    emulated: &VmEmulatedDeviceConfigList,
    passthrough: &VmPassthroughDeviceConfigList,
) -> (result: Result<DevicePlan, HyperError>)
    ensures
        match planned(emulated.devices(), passthrough.devices()) {
            Ok(plan) => result is Ok && result.unwrap()@ == plan,
            Err(e) => result is Err && result.unwrap_err() == e,
        },
{
    let mut plan = DevicePlan { devices: Vec::new(), registry: PciRegistry::new() };
    let ghost start = plan@;
    assert(start == (PlanView { devices: Seq::empty(), registry: Map::empty() }));
    let emulated_list = emulated_configs_slice(&emulated.emu_dev_list);
    let passthrough_list = passthrough_configs_slice(&passthrough.passthrough_dev_list);
    assert(emulated_list@.subrange(0, emulated_list@.len() as int) =~= emulated_list@);
    let mut i: usize = 0;
    while i < emulated_list.len()
        invariant
            i <= emulated_list@.len(),
            emulated_list@ == emulated.devices(),
            passthrough_list@ == passthrough.devices(),
            start == (PlanView { devices: Seq::empty(), registry: Map::empty() }),
            with_emulated(plan@, emulated_list@.subrange(i as int, emulated_list@.len() as int))
                == with_emulated(start, emulated_list@),
        decreases emulated_list@.len() - i,
    {
        let config = &emulated_list[i];
        let ghost rest = emulated_list@.subrange(i as int, emulated_list@.len() as int);
        assert(rest[0] == *config);
        assert(rest.drop_first() =~= emulated_list@.subrange(
            i + 1,
            emulated_list@.len() as int,
        ));
        proof {
            lemma_with_emulated_step(plan@, rest);
        }
        let demand = emulated_demand(config.emu_type, config.device_type);
        let bases = port_numbers_slice(&config.base);
        let ranges = port_numbers_slice(&config.range);
        match devices_for(demand, bases, ranges) {
            Some(mut devices) => {
                plan.devices.append(&mut devices);
            },
            None => {
                return Err(HyperError::InvalidParam);
            },
        }
        i += 1;
    }
    assert(emulated_list@.subrange(i as int, emulated_list@.len() as int).len() == 0);
    let ghost middle = plan@;
    assert(with_emulated(start, emulated_list@) == Ok::<PlanView, HyperError>(middle));
    assert(passthrough_list@.subrange(0, passthrough_list@.len() as int) =~= passthrough_list@);
    let mut i: usize = 0;
    while i < passthrough_list.len()
        invariant
            i <= passthrough_list@.len(),
            planned(emulated.devices(), passthrough.devices()) == with_passthrough(
                middle,
                passthrough_list@,
            ),
            with_passthrough(
                plan@,
                passthrough_list@.subrange(i as int, passthrough_list@.len() as int),
            ) == with_passthrough(middle, passthrough_list@),
        decreases passthrough_list@.len() - i,
    {
        let config = &passthrough_list[i];
        let ghost rest = passthrough_list@.subrange(i as int, passthrough_list@.len() as int);
        assert(rest[0] == *config);
        assert(rest.drop_first() =~= passthrough_list@.subrange(
            i + 1,
            passthrough_list@.len() as int,
        ));
        proof {
            lemma_with_passthrough_step(plan@, rest);
        }
        match plan_passthrough_device(&mut plan, config) {
            Ok(_) => {},
            Err(e) => {
                return Err(e);
            },
        }
        i += 1;
    }
    assert(passthrough_list@.subrange(i as int, passthrough_list@.len() as int).len() == 0);
    Ok(plan)
}

} // verus!
