//! What the exit dispatcher reads and changes of a virtual CPU, and what
//! it is told of a VM exit.

use vstd::prelude::*;
use crate::error::HyperError;

verus! {

/// The general-purpose registers that port I/O and MSR accesses use.
#[derive(Clone, Copy, Debug, PartialEq, Eq, Structural)]
pub struct GeneralRegisters {
    /// The accumulator: the data of a port access, and the low half of an
    /// MSR value.
    pub rax: u64,
    /// The counter: the number of the model-specific register accessed.
    pub rcx: u64,
    /// The high half of an MSR value.
    pub rdx: u64,
}

/// What the exit that a port-I/O instruction caused says of the
/// instruction.
#[derive(Clone, Copy, Debug, PartialEq, Eq, Structural)]
pub struct VmxIoExitInfo {
    /// The width of the access in bytes.
    pub access_size: u8,
    /// Whether the instruction reads from the port.
    pub is_in: bool,
    /// Whether it is a string instruction.
    pub is_string: bool,
    /// Whether it carries a repeat prefix.
    pub is_repeat: bool,
    /// The port accessed.
    pub port: u16,
}

/// What the exit that an external interrupt caused says of the interrupt.
#[derive(Clone, Copy, Debug, PartialEq, Eq, Structural)]
pub struct VmxInterruptInfo {
    /// The interrupt's vector.
    pub vector: u8,
    /// Whether the information is valid.
    pub valid: bool,
}

/// Why the guest left guest mode.
#[derive(Clone, Copy, Debug, PartialEq, Eq, Structural)]
pub enum VmxExitReason {
    /// An external interrupt arrived.
    ExternalInterrupt,
    /// The guest executed a port-I/O instruction.
    IoInstruction,
    /// The guest executed RDMSR.
    MsrRead,
    /// The guest executed WRMSR.
    MsrWrite,
    /// The guest touched memory that its page tables do not map.
    EptViolation,
    /// Any other reason.
    Other,
}

/// What a VM exit reports.
#[derive(Clone, Copy, Debug, PartialEq, Eq, Structural)]
pub struct VmExitInfo {
    /// Why the guest left guest mode.
    pub exit_reason: VmxExitReason,
    /// The length of the instruction that caused the exit.
    pub exit_instruction_length: u32,
    /// The guest's instruction pointer at the exit.
    pub guest_rip: u64,
}

/// A virtual CPU, as far as the dispatcher deals with it.
#[derive(Clone, Copy, Debug)]
pub struct VCpu {
    /// The general-purpose registers.
    pub regs: GeneralRegisters,
    /// The instruction pointer.
    pub rip: u64,
    /// What the current exit says of a port-I/O instruction, or why that
    /// could not be had.
    pub io_exit: Result<VmxIoExitInfo, HyperError>,
    /// What the current exit says of an external interrupt, or why that
    /// could not be had.
    pub interrupt_exit: Result<VmxInterruptInfo, HyperError>,
}

/// The instruction pointer `rip` moved on by `length` bytes, around the
/// end of the address space.
pub open spec fn rip_after(rip: u64, length: u8) -> u64 {
    ((rip + length) % 0x1_0000_0000_0000_0000) as u64
}

impl VCpu {
    /// A virtual CPU with the given registers and instruction pointer, at
    /// an exit that describes neither a port-I/O instruction nor an
    /// external interrupt: asked for either, it answers with a bad state.
    pub fn new(regs: GeneralRegisters, rip: u64) -> (vcpu: Self)
        ensures
            vcpu == (VCpu {
                regs,
                rip,
                io_exit: Err(HyperError::BadState),
                interrupt_exit: Err(HyperError::BadState),
            }),
    {
        VCpu {
            regs,
            rip,
            io_exit: Err(HyperError::BadState),
            interrupt_exit: Err(HyperError::BadState),
        }
    }

    /// The general-purpose registers.
    pub fn regs(&self) -> (regs: &GeneralRegisters)
        ensures
            *regs == self.regs,
    {
        &self.regs
    }

    /// What the current exit says of a port-I/O instruction.
    pub fn io_exit_info(&self) -> (info: Result<VmxIoExitInfo, HyperError>)
        ensures
            info == self.io_exit,
    {
        self.io_exit
    }

    /// What the current exit says of an external interrupt.
    pub fn interrupt_exit_info(&self) -> (info: Result<VmxInterruptInfo, HyperError>)
        ensures
            info == self.interrupt_exit,
    {
        self.interrupt_exit
    }

    /// Moves the instruction pointer on by `instr_len` bytes.
    pub fn advance_rip(&mut self, instr_len: u8)
        ensures
            *final(self) == (VCpu { rip: rip_after(old(self).rip, instr_len), ..*old(self) }),
    {
        self.rip = self.rip.wrapping_add(instr_len as u64);
    }
}

} // verus!
