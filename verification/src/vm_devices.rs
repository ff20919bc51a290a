//! The two device tables of a guest, one per virtual CPU and one for the
//! whole guest, and what each does at a VM exit.

use vstd::prelude::*;
use crate::device::{PortIoDevice, VirtMsrDevice};
use crate::dispatch::{io_handled, msr_read_handled, msr_write_handled, DeviceList};
use crate::error::{HyperError, HyperResult};
use crate::vcpu::{VCpu, VmExitInfo, VmxExitReason};

verus! {

/// The vector of the one external interrupt that the hypervisor expects
/// while a guest runs.
pub const EXPECTED_INTERRUPT_VECTOR: u8 = 0xf0;

/// How long after the first check of events the first clock tick is due,
/// in nanoseconds.
pub const TICK_DELAY_NANOS: u64 = 10_000_000_000;

/// How long after a clock tick the next one is due, in nanoseconds.
pub const TICK_PERIOD_NANOS: u64 = 1_000_000;

/// The vector of the clock tick's interrupt.
pub const TICK_VECTOR: u8 = 0x30;

/// Whether at the time `now` a clock tick is due, the last one having
/// been at `last`: more than a period has passed.
pub open spec fn tick_due(last: u64, now: u64) -> bool {
    now > TICK_PERIOD_NANOS + last
}

/// The devices of one virtual CPU.
pub struct X64VcpuDevices<P: PortIoDevice, M: VirtMsrDevice> {
    /// The devices that answer this virtual CPU's port-I/O and MSR
    /// accesses.
    pub devices: DeviceList<P, M>,
    /// When the last clock tick was, in nanoseconds; before the first
    /// check of events, nothing.
    pub last: Option<u64>,
}

impl<P: PortIoDevice, M: VirtMsrDevice> X64VcpuDevices<P, M> {
    /// The devices of a virtual CPU, with the table `devices`, before the
    /// first check of events.
    pub fn new(devices: DeviceList<P, M>) -> (table: Self)
        ensures
            table.devices == devices,
            table.last is None,
    {
        Self { devices, last: None }
    }

    /// Decides at the time `now`, in nanoseconds, whether the interrupt of
    /// the clock tick is to be injected.
    ///
    /// The first check only sets the time of the first tick,
    /// `TICK_DELAY_NANOS` from now. After that a tick is due whenever more
    /// than `TICK_PERIOD_NANOS` have passed since the last one; it is
    /// injected unless the interrupt controller masks it, and is counted
    /// as the last one either way.
    pub fn check_events(&mut self, now: u64, irq0_masked: bool) -> (inject: bool)
        requires
            now + TICK_DELAY_NANOS <= u64::MAX,
        ensures
            final(self).devices == old(self).devices,
            match old(self).last {
                None => final(self).last == Some((now + TICK_DELAY_NANOS) as u64) && !inject,
                Some(last) => if tick_due(last, now) {
                    final(self).last == Some(now) && inject == !irq0_masked
                } else {
                    final(self).last == old(self).last && !inject
                },
            },
    {
        match self.last {
            Some(last) => {
                if now > last && now - last > TICK_PERIOD_NANOS {
                    self.last = Some(now);
                    !irq0_masked
                } else {
                    false
                }
            },
            None => {
                self.last = Some(now + TICK_DELAY_NANOS);
                false
            },
        }
    }

    /// Handles the exit that `exit_info` reports, if it is one that the
    /// devices of a virtual CPU answer: a port-I/O instruction, RDMSR or
    /// WRMSR. For any other exit the result is `None`, and nothing
    /// changes.
    pub fn vmexit_handler(&mut self, vcpu: &mut VCpu, exit_info: &VmExitInfo) -> (result: Option<
        HyperResult,
    >)
        ensures
            device_exit_handled(
                old(self).devices,
                *old(vcpu),
                *exit_info,
                final(self).devices,
                *final(vcpu),
                result,
            ),
            final(self).last == old(self).last,
    {
        match exit_info.exit_reason {
            VmxExitReason::IoInstruction => self.devices.handle_io_instruction(vcpu, exit_info),
            VmxExitReason::MsrRead => Some(self.devices.handle_msr_read(vcpu)),
            VmxExitReason::MsrWrite => Some(self.devices.handle_msr_write(vcpu)),
            _ => None,
        }
    }

    /// A virtual CPU's devices answer no hypercall: the result is always
    /// that the hypercall is not supported.
    pub fn hypercall_handler(&mut self, vcpu: &mut VCpu, id: u32, args: (u32, u32)) -> (result:
        HyperResult<u32>)
        ensures
            result == Err::<u32, HyperError>(HyperError::NotSupported),
            *final(vcpu) == *old(vcpu),
            *final(self) == *old(self),
    {
        Err(HyperError::NotSupported)
    }
}

/// The devices of the whole guest.
pub struct X64VmDevices<P: PortIoDevice, M: VirtMsrDevice> {
    /// The devices that answer the port-I/O and MSR accesses of every
    /// virtual CPU.
    pub devices: DeviceList<P, M>,
}

impl<P: PortIoDevice, M: VirtMsrDevice> X64VmDevices<P, M> {
    /// The devices of a guest, with an empty table.
    pub fn new() -> (result: HyperResult<Self>)
        ensures
            result is Ok,
            result.unwrap().devices.port_io() == Seq::<P>::empty(),
            result.unwrap().devices.msr() == Seq::<M>::empty(),
    {
        Ok(Self { devices: DeviceList::new() })
    }

    /// Decides whether the external interrupt at which `vcpu` stands is
    /// one to hand to the host: the one with the expected vector, which is
    /// all that can arrive while a guest runs.
    ///
    /// Another vector is not supported, and information that is not valid
    /// is a bad state. If the exit holds no description of the interrupt,
    /// the error that stands in its place is the result.
    pub fn handle_external_interrupt(vcpu: &VCpu) -> (result: HyperResult)
        ensures
            result == external_interrupt_result(*vcpu),
    {
        match vcpu.interrupt_exit_info() {
            Ok(int_info) => {
                if int_info.vector != EXPECTED_INTERRUPT_VECTOR {
                    Err(HyperError::NotSupported)
                } else if !int_info.valid {
                    Err(HyperError::BadState)
                } else {
                    Ok(())
                }
            },
            Err(e) => Err(e),
        }
    }

    /// Handles the exit that `exit_info` reports, if it is one that the
    /// guest's devices answer.
    ///
    /// A port-I/O instruction, RDMSR and WRMSR go to the table, as for a
    /// virtual CPU's devices. An external interrupt is accepted or refused
    /// as `handle_external_interrupt` decides. A violation of the guest's
    /// memory mapping cannot be handled: the result is a bad state. For
    /// any other exit the result is `None`. But for the table's part,
    /// nothing changes.
    pub fn vmexit_handler(&mut self, vcpu: &mut VCpu, exit_info: &VmExitInfo) -> (result: Option<
        HyperResult,
    >)
        ensures
            match exit_info.exit_reason {
                VmxExitReason::ExternalInterrupt => {
                    &&& result == Some(external_interrupt_result(*old(vcpu)))
                    &&& *final(vcpu) == *old(vcpu)
                    &&& final(self).devices == old(self).devices
                },
                VmxExitReason::EptViolation => {
                    &&& result == Some(Err::<(), HyperError>(HyperError::BadState))
                    &&& *final(vcpu) == *old(vcpu)
                    &&& final(self).devices == old(self).devices
                },
                _ => device_exit_handled(
                    old(self).devices,
                    *old(vcpu),
                    *exit_info,
                    final(self).devices,
                    *final(vcpu),
                    result,
                ),
            },
    {
        match exit_info.exit_reason {
            VmxExitReason::ExternalInterrupt => Some(Self::handle_external_interrupt(vcpu)),
            VmxExitReason::EptViolation => Some(Err(HyperError::BadState)),
            VmxExitReason::IoInstruction => self.devices.handle_io_instruction(vcpu, exit_info),
            VmxExitReason::MsrRead => Some(self.devices.handle_msr_read(vcpu)),
            VmxExitReason::MsrWrite => Some(self.devices.handle_msr_write(vcpu)),
            _ => None,
        }
    }
}

/// What `handle_external_interrupt` decides of the external interrupt at
/// which `vcpu` stands.
pub open spec fn external_interrupt_result(vcpu: VCpu) -> Result<(), HyperError> {
    match vcpu.interrupt_exit {
        Ok(int_info) => if int_info.vector != EXPECTED_INTERRUPT_VECTOR {
            Err(HyperError::NotSupported)
        } else if !int_info.valid {
            Err(HyperError::BadState)
        } else {
            Ok(())
        },
        Err(e) => Err(e),
    }
}

/// Whether the exit that `exit_info` reports, handled by the table
/// `devices`, may leave the table as `devices_after` and the virtual CPU
/// as `vcpu_after` and end in `result`.
///
/// A port-I/O instruction is handled as `io_handled` says, RDMSR as
/// `msr_read_handled` and WRMSR as `msr_write_handled`. For any other exit
/// there is no result, and nothing changes.
pub open spec fn device_exit_handled<P: PortIoDevice, M: VirtMsrDevice>(
    devices: DeviceList<P, M>,
    vcpu: VCpu,
    exit_info: VmExitInfo,
    devices_after: DeviceList<P, M>,
    vcpu_after: VCpu,
    result: Option<Result<(), HyperError>>,
) -> bool {
    match exit_info.exit_reason {
        VmxExitReason::IoInstruction => {
            &&& devices_after.msr() == devices.msr()
            &&& io_handled(
                devices.port_io(),
                vcpu,
                exit_info,
                devices_after.port_io(),
                vcpu_after,
                result,
            )
        },
        VmxExitReason::MsrRead => {
            &&& devices_after.port_io() == devices.port_io()
            &&& result is Some
            &&& msr_read_handled(
                devices.msr(),
                vcpu,
                devices_after.msr(),
                vcpu_after,
                result.unwrap(),
            )
        },
        VmxExitReason::MsrWrite => {
            &&& devices_after.port_io() == devices.port_io()
            &&& result is Some
            &&& msr_write_handled(
                devices.msr(),
                vcpu,
                devices_after.msr(),
                vcpu_after,
                result.unwrap(),
            )
        },
        _ => {
            &&& result is None
            &&& vcpu_after == vcpu
            &&& devices_after == devices
        },
    }
}

} // verus!
