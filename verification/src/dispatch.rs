//! The device tables: the devices that answer the guest's port-I/O and MSR
//! accesses, and the routing of each access to the device that owns the
//! address.

use vstd::prelude::*;
use crate::device::{PortIoDevice, VirtMsrDevice};
use crate::error::{valid_access_size, HyperError, HyperResult};
use crate::vcpu::{rip_after, GeneralRegisters, VCpu, VmExitInfo, VmxIoExitInfo};

verus! {

/// The length of the RDMSR instruction.
pub const VM_EXIT_INSTR_LEN_RDMSR: u8 = 2;

/// The length of the WRMSR instruction.
pub const VM_EXIT_INSTR_LEN_WRMSR: u8 = 2;

/// Whether `device` owns `port`.
pub open spec fn owns_port<P: PortIoDevice>(device: P, port: u16) -> bool {
    device.ports().start <= port < device.ports().end
}

/// Whether `device` owns the register `msr`.
pub open spec fn owns_msr<M: VirtMsrDevice>(device: M, msr: u32) -> bool {
    device.msrs().start <= msr < device.msrs().end
}

/// Whether the device at `index` is the first of `devices` that owns
/// `port`.
pub open spec fn first_port_owner<P: PortIoDevice>(devices: Seq<P>, port: u16, index: int) -> bool {
    &&& 0 <= index < devices.len()
    &&& owns_port(devices[index], port)
    &&& forall|j: int| 0 <= j < index ==> !owns_port(#[trigger] devices[j], port)
}

/// Whether none of `devices` owns `port`.
pub open spec fn no_port_owner<P: PortIoDevice>(devices: Seq<P>, port: u16) -> bool {
    forall|j: int| 0 <= j < devices.len() ==> !owns_port(#[trigger] devices[j], port)
}

/// Whether the device at `index` is the first of `devices` that owns the
/// register `msr`.
pub open spec fn first_msr_owner<M: VirtMsrDevice>(devices: Seq<M>, msr: u32, index: int) -> bool {
    &&& 0 <= index < devices.len()
    &&& owns_msr(devices[index], msr)
    &&& forall|j: int| 0 <= j < index ==> !owns_msr(#[trigger] devices[j], msr)
}

/// Whether none of `devices` owns the register `msr`.
pub open spec fn no_msr_owner<M: VirtMsrDevice>(devices: Seq<M>, msr: u32) -> bool {
    forall|j: int| 0 <= j < devices.len() ==> !owns_msr(#[trigger] devices[j], msr)
}

/// The accumulator after an IN of `size` bytes that read `value`: a byte
/// or a word replaces the low bits and leaves the rest, a doubleword
/// replaces the register, zero-extended.
pub open spec fn merged_rax(rax: u64, value: u32, size: u8) -> u64
    recommends
        valid_access_size(size),
{
    if size == 1 {
        (rax & !0xffu64) | ((value & 0xff) as u64)
    } else if size == 2 {
        (rax & !0xffffu64) | ((value & 0xffff) as u64)
    } else {
        value as u64
    }
}

/// What an OUT of `size` bytes writes: the low bits of the accumulator.
pub open spec fn out_value(rax: u64, size: u8) -> u32
    recommends
        valid_access_size(size),
{
    if size == 1 {
        (rax & 0xff) as u32
    } else if size == 2 {
        (rax & 0xffff) as u32
    } else {
        (rax & 0xffff_ffff) as u32
    }
}

/// The number of the register that RDMSR and WRMSR access: the low half of
/// the counter.
pub open spec fn msr_index(rcx: u64) -> u32 {
    (rcx & 0xffff_ffff) as u32
}

/// The value that WRMSR writes: its low half from the accumulator, its
/// high half from the low half of `rdx`.
pub open spec fn msr_write_value(rax: u64, rdx: u64) -> u64 {
    (rax & 0xffff_ffff) | (rdx << 32)
}

/// The accumulator after an IN of `access_size` bytes that read `value`.
pub fn merge_io_value(rax: u64, value: u32, access_size: u8) -> (merged: u64)
    requires
        valid_access_size(access_size),
    ensures
        merged == merged_rax(rax, value, access_size),
{
    if access_size == 1 {
        (rax & !0xffu64) | ((value & 0xff) as u64)
    } else if access_size == 2 {
        (rax & !0xffffu64) | ((value & 0xffff) as u64)
    } else {
        value as u64
    }
}

/// What an OUT of `access_size` bytes writes.
pub fn io_out_value(rax: u64, access_size: u8) -> (value: u32)
    requires
        valid_access_size(access_size),
    ensures
        value == out_value(rax, access_size),
{
    assert((rax & 0xff) <= 0xff && (rax & 0xffff) <= 0xffff && (rax & 0xffff_ffff) <= 0xffff_ffff)
        by (bit_vector);
    if access_size == 1 {
        (rax & 0xff) as u32
    } else if access_size == 2 {
        (rax & 0xffff) as u32
    } else {
        (rax & 0xffff_ffff) as u32
    }
}

/// Whether a port-I/O instruction, carried out on the device that owns its
/// port, may leave the device as `device_after` and the virtual CPU as
/// `vcpu_after` and end in `result`.
///
/// String and repeated instructions are not supported, and touch nothing.
/// An IN puts what the device's read returns into the accumulator; an OUT
/// hands the device the low bits of the accumulator. The instruction
/// pointer moves past the instruction if the device succeeds; if it fails,
/// its error is the result and the virtual CPU stays as it was.
pub open spec fn io_outcome<P: PortIoDevice>(
    device: P,
    vcpu: VCpu,
    io_info: VmxIoExitInfo,
    instr_len: u8,
    device_after: P,
    vcpu_after: VCpu,
    result: Result<(), HyperError>,
) -> bool {
    if io_info.is_string || io_info.is_repeat {
        &&& device_after == device
        &&& vcpu_after == vcpu
        &&& result == Err::<(), HyperError>(HyperError::NotSupported)
    } else if io_info.is_in {
        exists|read: Result<u32, HyperError>|
            {
                &&& #[trigger] device.read_outcome(
                    io_info.port,
                    io_info.access_size,
                    &device_after,
                    read,
                )
                &&& match read {
                    Ok(value) => {
                        &&& valid_access_size(io_info.access_size)
                        &&& vcpu_after == (VCpu {
                            regs: GeneralRegisters {
                                rax: merged_rax(vcpu.regs.rax, value, io_info.access_size),
                                ..vcpu.regs
                            },
                            rip: rip_after(vcpu.rip, instr_len),
                            ..vcpu
                        })
                        &&& result == Ok::<(), HyperError>(())
                    },
                    Err(e) => vcpu_after == vcpu && result == Err::<(), HyperError>(e),
                }
            }
    } else if !valid_access_size(io_info.access_size) {
        &&& device_after == device
        &&& vcpu_after == vcpu
        &&& result == Err::<(), HyperError>(HyperError::InvalidParam)
    } else {
        exists|written: Result<(), HyperError>|
            {
                &&& #[trigger] device.write_outcome(
                    io_info.port,
                    io_info.access_size,
                    out_value(vcpu.regs.rax, io_info.access_size),
                    &device_after,
                    written,
                )
                &&& match written {
                    Ok(_) => {
                        &&& vcpu_after == (VCpu { rip: rip_after(vcpu.rip, instr_len), ..vcpu })
                        &&& result == Ok::<(), HyperError>(())
                    },
                    Err(e) => vcpu_after == vcpu && result == Err::<(), HyperError>(e),
                }
            }
    }
}

/// Whether an RDMSR, carried out on the device that owns the register, may
/// leave the device as `device_after` and the virtual CPU as `vcpu_after`
/// and end in `result`.
///
/// The value read goes to the accumulator, low half, and to `rdx`, high
/// half, and the instruction pointer moves past the instruction. If the
/// device fails, its error is the result and the virtual CPU stays as it
/// was.
pub open spec fn msr_read_outcome<M: VirtMsrDevice>(
    device: M,
    vcpu: VCpu,
    device_after: M,
    vcpu_after: VCpu,
    result: Result<(), HyperError>,
) -> bool {
    exists|read: Result<u64, HyperError>|
        {
            &&& #[trigger] device.read_outcome(msr_index(vcpu.regs.rcx), &device_after, read)
            &&& match read {
                Ok(value) => {
                    &&& vcpu_after == (VCpu {
                        regs: GeneralRegisters {
                            rax: value & 0xffff_ffff,
                            rdx: value >> 32,
                            ..vcpu.regs
                        },
                        rip: rip_after(vcpu.rip, VM_EXIT_INSTR_LEN_RDMSR),
                        ..vcpu
                    })
                    &&& result == Ok::<(), HyperError>(())
                },
                Err(e) => vcpu_after == vcpu && result == Err::<(), HyperError>(e),
            }
        }
}

/// Whether a WRMSR, carried out on the device that owns the register, may
/// leave the device as `device_after` and the virtual CPU as `vcpu_after`
/// and end in `result`.
pub open spec fn msr_write_outcome<M: VirtMsrDevice>(
    device: M,
    vcpu: VCpu,
    device_after: M,
    vcpu_after: VCpu,
    result: Result<(), HyperError>,
) -> bool {
    exists|written: Result<(), HyperError>|
        {
            &&& #[trigger] device.write_outcome(
                msr_index(vcpu.regs.rcx),
                msr_write_value(vcpu.regs.rax, vcpu.regs.rdx),
                &device_after,
                written,
            )
            &&& match written {
                Ok(_) => {
                    &&& vcpu_after == (VCpu {
                        rip: rip_after(vcpu.rip, VM_EXIT_INSTR_LEN_WRMSR),
                        ..vcpu
                    })
                    &&& result == Ok::<(), HyperError>(())
                },
                Err(e) => vcpu_after == vcpu && result == Err::<(), HyperError>(e),
            }
        }
}

/// Whether the exit that a port-I/O instruction caused, handled by a table
/// with the port-I/O devices `devices`, may leave the devices as
/// `devices_after` and the virtual CPU as `vcpu_after` and end in
/// `result`.
///
/// If the exit holds no description of the instruction, the error that
/// stands in its place is the result, and nothing changes. If no device
/// owns the port, there is no result, and nothing changes. Else the first
/// device that owns the port carries out the instruction, as `io_outcome`
/// says, and no other device changes.
pub open spec fn io_handled<P: PortIoDevice>(
    devices: Seq<P>,
    vcpu: VCpu,
    exit_info: VmExitInfo,
    devices_after: Seq<P>,
    vcpu_after: VCpu,
    result: Option<Result<(), HyperError>>,
) -> bool {
    &&& devices_after.len() == devices.len()
    &&& match vcpu.io_exit {
        Err(e) => {
            &&& result == Some(Err::<(), HyperError>(e))
            &&& vcpu_after == vcpu
            &&& devices_after == devices
        },
        Ok(io_info) => {
            if no_port_owner(devices, io_info.port) {
                &&& result is None
                &&& vcpu_after == vcpu
                &&& devices_after == devices
            } else {
                exists|i: int|
                    {
                        &&& first_port_owner(devices, io_info.port, i)
                        &&& result is Some
                        &&& io_outcome(
                            devices[i],
                            vcpu,
                            io_info,
                            (exit_info.exit_instruction_length % 0x100) as u8,
                            devices_after[i],
                            vcpu_after,
                            result.unwrap(),
                        )
                        &&& forall|j: int|
                            0 <= j < devices.len() && j != i ==> devices_after[j] == devices[j]
                    }
            }
        },
    }
}

/// Whether an RDMSR, handled by a table with the MSR devices `devices`,
/// may leave the devices as `devices_after` and the virtual CPU as
/// `vcpu_after` and end in `result`.
///
/// A register that no device owns is not supported, and nothing changes.
/// Else the first device that owns the register carries out the
/// instruction, as `msr_read_outcome` says, and no other device changes.
pub open spec fn msr_read_handled<M: VirtMsrDevice>(
    devices: Seq<M>,
    vcpu: VCpu,
    devices_after: Seq<M>,
    vcpu_after: VCpu,
    result: Result<(), HyperError>,
) -> bool {
    &&& devices_after.len() == devices.len()
    &&& if no_msr_owner(devices, msr_index(vcpu.regs.rcx)) {
        &&& result == Err::<(), HyperError>(HyperError::NotSupported)
        &&& vcpu_after == vcpu
        &&& devices_after == devices
    } else {
        exists|i: int|
            {
                &&& first_msr_owner(devices, msr_index(vcpu.regs.rcx), i)
                &&& msr_read_outcome(devices[i], vcpu, devices_after[i], vcpu_after, result)
                &&& forall|j: int|
                    0 <= j < devices.len() && j != i ==> devices_after[j] == devices[j]
            }
    }
}

/// Whether a WRMSR, handled by a table with the MSR devices `devices`, may
/// leave the devices as `devices_after` and the virtual CPU as
/// `vcpu_after` and end in `result`.
///
/// A register that no device owns is not supported, and nothing changes.
/// Else the first device that owns the register carries out the
/// instruction, as `msr_write_outcome` says, and no other device changes.
pub open spec fn msr_write_handled<M: VirtMsrDevice>(
    devices: Seq<M>,
    vcpu: VCpu,
    devices_after: Seq<M>,
    vcpu_after: VCpu,
    result: Result<(), HyperError>,
) -> bool {
    &&& devices_after.len() == devices.len()
    &&& if no_msr_owner(devices, msr_index(vcpu.regs.rcx)) {
        &&& result == Err::<(), HyperError>(HyperError::NotSupported)
        &&& vcpu_after == vcpu
        &&& devices_after == devices
    } else {
        exists|i: int|
            {
                &&& first_msr_owner(devices, msr_index(vcpu.regs.rcx), i)
                &&& msr_write_outcome(devices[i], vcpu, devices_after[i], vcpu_after, result)
                &&& forall|j: int|
                    0 <= j < devices.len() && j != i ==> devices_after[j] == devices[j]
            }
    }
}

/// The devices of one table: those that answer port I/O and those that
/// answer MSR accesses, each kind in the order in which it was added.
///
/// An access goes to the first device that owns its address.
pub struct DeviceList<P: PortIoDevice, M: VirtMsrDevice> {
    port_io_devices: Vec<P>,
    msr_devices: Vec<M>,
}

impl<P: PortIoDevice, M: VirtMsrDevice> DeviceList<P, M> {
    /// The port-I/O devices, in order.
    pub closed spec fn port_io(&self) -> Seq<P> {
        self.port_io_devices@
    }

    /// The MSR devices, in order.
    pub closed spec fn msr(&self) -> Seq<M> {
        self.msr_devices@
    }

    /// A table without devices.
    pub fn new() -> (list: Self)
        ensures
            list.port_io() == Seq::<P>::empty(),
            list.msr() == Seq::<M>::empty(),
    {
        Self { port_io_devices: Vec::new(), msr_devices: Vec::new() }
    }

    /// Adds a port-I/O device behind those that are there.
    pub fn add_port_io_device(&mut self, device: P)
        ensures
            final(self).port_io() == old(self).port_io().push(device),
            final(self).msr() == old(self).msr(),
    {
        self.port_io_devices.push(device)
    }

    /// Moves the port-I/O devices of `devices` behind those that are
    /// there, and leaves `devices` empty.
    pub fn add_port_io_devices(&mut self, devices: &mut Vec<P>)
        ensures
            final(self).port_io() == old(self).port_io() + old(devices)@,
            final(self).msr() == old(self).msr(),
            final(devices)@ == Seq::<P>::empty(),
    {
        self.port_io_devices.append(devices)
    }

    /// The first port-I/O device that owns `port`, if there is one.
    pub fn find_port_io_device(&self, port: u16) -> (found: Option<&P>)
        ensures
            match found {
                Some(device) => exists|i: int|
                    first_port_owner(self.port_io(), port, i) && *device == self.port_io()[i],
                None => no_port_owner(self.port_io(), port),
            },
    {
        match self.port_io_index(port) {
            Some(i) => Some(&self.port_io_devices[i]),
            None => None,
        }
    }

    /// Adds an MSR device behind those that are there.
    pub fn add_msr_device(&mut self, device: M)
        ensures
            final(self).msr() == old(self).msr().push(device),
            final(self).port_io() == old(self).port_io(),
    {
        self.msr_devices.push(device)
    }

    /// Moves the MSR devices of `devices` behind those that are there, and
    /// leaves `devices` empty.
    pub fn add_msr_devices(&mut self, devices: &mut Vec<M>)
        ensures
            final(self).msr() == old(self).msr() + old(devices)@,
            final(self).port_io() == old(self).port_io(),
            final(devices)@ == Seq::<M>::empty(),
    {
        self.msr_devices.append(devices)
    }

    /// The first MSR device that owns the register `msr`, if there is one.
    pub fn find_msr_device(&self, msr: u32) -> (found: Option<&M>)
        ensures
            match found {
                Some(device) => exists|i: int|
                    first_msr_owner(self.msr(), msr, i) && *device == self.msr()[i],
                None => no_msr_owner(self.msr(), msr),
            },
    {
        match self.msr_index_of(msr) {
            Some(i) => Some(&self.msr_devices[i]),
            None => None,
        }
    }

    fn port_io_index(&self, port: u16) -> (found: Option<usize>)
        ensures
            match found {
                Some(i) => first_port_owner(self.port_io(), port, i as int),
                None => no_port_owner(self.port_io(), port),
            },
    {
        let mut i: usize = 0;
        while i < self.port_io_devices.len()
            invariant
                i <= self.port_io_devices@.len(),
                forall|j: int| 0 <= j < i ==> !owns_port(#[trigger] self.port_io_devices@[j], port),
            decreases self.port_io_devices@.len() - i,
        {
            let range = self.port_io_devices[i].port_range();
            if range.start <= port && port < range.end {
                return Some(i);
            }
            i += 1;
        }
        None
    }

    fn msr_index_of(&self, msr: u32) -> (found: Option<usize>)
        ensures
            match found {
                Some(i) => first_msr_owner(self.msr(), msr, i as int),
                None => no_msr_owner(self.msr(), msr),
            },
    {
        let mut i: usize = 0;
        while i < self.msr_devices.len()
            invariant
                i <= self.msr_devices@.len(),
                forall|j: int| 0 <= j < i ==> !owns_msr(#[trigger] self.msr_devices@[j], msr),
            decreases self.msr_devices@.len() - i,
        {
            let range = self.msr_devices[i].msr_range();
            if range.start <= msr && msr < range.end {
                return Some(i);
            }
            i += 1;
        }
        None
    }

    /// Carries out on `device` the port-I/O instruction that `io_info`
    /// describes and that is `instr_len` bytes long.
    pub fn handle_io_instruction_to_device(
        vcpu: &mut VCpu,
        io_info: &VmxIoExitInfo,
        instr_len: u8,
        device: &mut P,
    ) -> (result: HyperResult)
        ensures
            io_outcome(
                *old(device),
                *old(vcpu),
                *io_info,
                instr_len,
                *final(device),
                *final(vcpu),
                result,
            ),
    {
        if io_info.is_string {
            return Err(HyperError::NotSupported);
        }
        if io_info.is_repeat {
            return Err(HyperError::NotSupported);
        }
        if io_info.is_in {
            let read = device.read(io_info.port, io_info.access_size);
            match read {
                Ok(value) => {
                    vcpu.regs.rax = merge_io_value(vcpu.regs.rax, value, io_info.access_size);
                    vcpu.advance_rip(instr_len);
                    Ok(())
                },
                Err(e) => Err(e),
            }
        } else {
            if io_info.access_size != 1 && io_info.access_size != 2 && io_info.access_size != 4 {
                return Err(HyperError::InvalidParam);
            }
            let value = io_out_value(vcpu.regs.rax, io_info.access_size);
            let written = device.write(io_info.port, io_info.access_size, value);
            match written {
                Ok(_) => {
                    vcpu.advance_rip(instr_len);
                    Ok(())
                },
                Err(e) => Err(e),
            }
        }
    }

    /// Routes the port-I/O instruction at which `vcpu` stands to the first
    /// device that owns its port, and carries it out there.
    ///
    /// Returns `None`, with nothing changed, if no device owns the port.
    pub fn handle_io_instruction(&mut self, vcpu: &mut VCpu, exit_info: &VmExitInfo) -> (result:
        Option<HyperResult>)
        ensures
            final(self).msr() == old(self).msr(),
            io_handled(
                old(self).port_io(),
                *old(vcpu),
                *exit_info,
                final(self).port_io(),
                *final(vcpu),
                result,
            ),
    {
        let io_info = match vcpu.io_exit_info() {
            Ok(io_info) => io_info,
            Err(e) => {
                return Some(Err(e));
            },
        };
        let instr_len: u8 = (exit_info.exit_instruction_length % 0x100) as u8;
        match self.port_io_index(io_info.port) {
            Some(i) => {
                let device = &mut self.port_io_devices[i];
                let handled = Self::handle_io_instruction_to_device(
                    vcpu,
                    &io_info,
                    instr_len,
                    device,
                );
                Some(handled)
            },
            None => None,
        }
    }

    /// Carries out the RDMSR at which `vcpu` stands on the first device
    /// that owns the register named by the counter.
    ///
    /// A register that no device owns is not supported: the guest relies
    /// on a register that is not emulated, and cannot go on.
    pub fn handle_msr_read(&mut self, vcpu: &mut VCpu) -> (result: HyperResult)
        ensures
            final(self).port_io() == old(self).port_io(),
            msr_read_handled(old(self).msr(), *old(vcpu), final(self).msr(), *final(vcpu), result),
    {
        let rcx: u64 = vcpu.regs.rcx;
        assert((rcx & 0xffff_ffff) <= 0xffff_ffff) by (bit_vector);
        let msr: u32 = (rcx & 0xffff_ffff) as u32;
        match self.msr_index_of(msr) {
            Some(i) => {
                let device = &mut self.msr_devices[i];
                match device.read(msr) {
                    Ok(value) => {
                        vcpu.regs.rax = value & 0xffff_ffff;
                        vcpu.regs.rdx = value >> 32;
                        vcpu.advance_rip(VM_EXIT_INSTR_LEN_RDMSR);
                        Ok(())
                    },
                    Err(e) => Err(e),
                }
            },
            None => Err(HyperError::NotSupported),
        }
    }

    /// Carries out the WRMSR at which `vcpu` stands on the first device
    /// that owns the register named by the counter.
    ///
    /// A register that no device owns is not supported, as for
    /// `handle_msr_read`.
    pub fn handle_msr_write(&mut self, vcpu: &mut VCpu) -> (result: HyperResult)
        ensures
            final(self).port_io() == old(self).port_io(),
            msr_write_handled(
                old(self).msr(),
                *old(vcpu),
                final(self).msr(),
                *final(vcpu),
                result,
            ),
    {
        let rcx: u64 = vcpu.regs.rcx;
        assert((rcx & 0xffff_ffff) <= 0xffff_ffff) by (bit_vector);
        let msr: u32 = (rcx & 0xffff_ffff) as u32;
        let value: u64 = (vcpu.regs.rax & 0xffff_ffff) | (vcpu.regs.rdx << 32);
        match self.msr_index_of(msr) {
            Some(i) => {
                let device = &mut self.msr_devices[i];
                let written = device.write(msr, value);
                assert(old(self).msr()[i as int].write_outcome(
                    msr_index(old(vcpu).regs.rcx),
                    msr_write_value(old(vcpu).regs.rax, old(vcpu).regs.rdx),
                    device,
                    written,
                ));
                match written {
                    Ok(_) => {
                        vcpu.advance_rip(VM_EXIT_INSTR_LEN_WRMSR);
                        Ok(())
                    },
                    Err(e) => Err(e),
                }
            },
            None => Err(HyperError::NotSupported),
        }
    }
}

} // verus!
