use core::ops::Range;
use hv_device::device::{PortIoDevice, VirtMsrDevice};
use hv_device::dispatch::{io_out_value, merge_io_value, DeviceList};
use hv_device::error::{HyperError, HyperResult};
use hv_device::hvc::{handle_hvc, HvcAction};
use hv_device::pci::PCIConfigurationSpace;
use hv_device::pci_registry::make_selector;
use hv_device::vcpu::{
    GeneralRegisters, VCpu, VmExitInfo, VmxExitReason, VmxInterruptInfo, VmxIoExitInfo,
};
use hv_device::vm_devices::{X64VcpuDevices, X64VmDevices};

/// A port device that keeps the last value written and counts accesses.
struct Latch {
    base: u16,
    len: u16,
    value: u32,
    reads: u32,
    writes: u32,
}

impl Latch {
    fn new(base: u16, len: u16, value: u32) -> Self {
        Latch { base, len, value, reads: 0, writes: 0 }
    }
}

impl PortIoDevice for Latch {
    fn ports(&self) -> Range<u16> {
        self.base..self.base + self.len
    }

    fn read_outcome(&self, _: u16, _: u8, _: &Self, _: HyperResult<u32>) -> bool {
        true
    }

    fn write_outcome(&self, _: u16, _: u8, _: u32, _: &Self, _: HyperResult) -> bool {
        true
    }

    fn port_range(&self) -> Range<u16> {
        self.base..self.base + self.len
    }

    fn read(&mut self, port: u16, access_size: u8) -> HyperResult<u32> {
        if access_size != 1 && access_size != 2 && access_size != 4 {
            return Err(HyperError::InvalidParam);
        }
        if port == self.base + self.len - 1 {
            return Err(HyperError::BadState);
        }
        self.reads += 1;
        Ok(self.value)
    }

    fn write(&mut self, port: u16, access_size: u8, value: u32) -> HyperResult {
        if access_size != 1 && access_size != 2 && access_size != 4 {
            return Err(HyperError::InvalidParam);
        }
        if port == self.base + self.len - 1 {
            return Err(HyperError::BadState);
        }
        self.writes += 1;
        self.value = value;
        Ok(())
    }
}

/// An MSR device of one register that keeps what is written.
struct ScratchMsr {
    base: u32,
    value: u64,
    fails: bool,
}

impl VirtMsrDevice for ScratchMsr {
    fn msrs(&self) -> Range<u32> {
        self.base..self.base + 1
    }

    fn read_outcome(&self, _: u32, _: &Self, _: HyperResult<u64>) -> bool {
        true
    }

    fn write_outcome(&self, _: u32, _: u64, _: &Self, _: HyperResult) -> bool {
        true
    }

    fn msr_range(&self) -> Range<u32> {
        self.base..self.base + 1
    }

    fn read(&mut self, _msr: u32) -> HyperResult<u64> {
        if self.fails {
            Err(HyperError::BadState)
        } else {
            Ok(self.value)
        }
    }

    fn write(&mut self, _msr: u32, value: u64) -> HyperResult {
        if self.fails {
            Err(HyperError::BadState)
        } else {
            self.value = value;
            Ok(())
        }
    }
}

fn vcpu(rax: u64, rcx: u64, rdx: u64) -> VCpu {
    VCpu::new(GeneralRegisters { rax, rcx, rdx }, 0x1000)
}

fn io_vcpu(rax: u64, port: u16, access_size: u8, is_in: bool) -> VCpu {
    let mut cpu = vcpu(rax, 0, 0);
    cpu.io_exit = Ok(VmxIoExitInfo { access_size, is_in, is_string: false, is_repeat: false, port });
    cpu
}

fn exit(exit_reason: VmxExitReason, exit_instruction_length: u32) -> VmExitInfo {
    VmExitInfo { exit_reason, exit_instruction_length, guest_rip: 0x1000 }
}

fn latches() -> DeviceList<Latch, ScratchMsr> {
    let mut devices = DeviceList::new();
    devices.add_port_io_device(Latch::new(0x80, 2, 0x1122_3344));
    devices.add_port_io_device(Latch::new(0x3f8, 8, 0xaabb_ccdd));
    devices.add_port_io_device(Latch::new(0x3f8, 8, 0x0));
    devices.add_msr_device(ScratchMsr { base: 0x1b, value: 0x1234_5678_9abc_def0, fails: false });
    devices.add_msr_device(ScratchMsr { base: 0x800, value: 0, fails: true });
    devices
}

#[test]
fn rdmsr_of_unowned_register_is_not_supported() {
    let mut devices = latches();
    let mut cpu = vcpu(1, 0xc001_1029, 3);
    assert_eq!(devices.handle_msr_read(&mut cpu), Err(HyperError::NotSupported));
    assert_eq!(cpu.regs, GeneralRegisters { rax: 1, rcx: 0xc001_1029, rdx: 3 });
    assert_eq!(cpu.rip, 0x1000);
    let mut empty: DeviceList<Latch, ScratchMsr> = DeviceList::new();
    assert_eq!(empty.handle_msr_read(&mut cpu), Err(HyperError::NotSupported));
    let mut per_cpu = X64VcpuDevices::new(empty);
    assert_eq!(
        per_cpu.vmexit_handler(&mut cpu, &exit(VmxExitReason::MsrRead, 2)),
        Some(Err(HyperError::NotSupported))
    );
    assert_eq!(cpu.regs, GeneralRegisters { rax: 1, rcx: 0xc001_1029, rdx: 3 });
    assert_eq!(cpu.rip, 0x1000);
}

#[test]
fn wrmsr_of_unowned_register_is_not_supported() {
    let mut devices = latches();
    let mut cpu = vcpu(1, 0x1c, 3);
    assert_eq!(devices.handle_msr_write(&mut cpu), Err(HyperError::NotSupported));
    assert_eq!(cpu.rip, 0x1000);
    assert_eq!(devices.find_msr_device(0x1b).unwrap().value, 0x1234_5678_9abc_def0);
}

#[test]
fn rdmsr_splits_value_over_rax_and_rdx() {
    let mut devices = latches();
    let mut cpu = vcpu(0xffff_ffff_ffff_ffff, 0xffff_ffff_0000_001b, 0xffff_ffff_ffff_ffff);
    assert_eq!(devices.handle_msr_read(&mut cpu), Ok(()));
    assert_eq!(cpu.regs.rax, 0x9abc_def0);
    assert_eq!(cpu.regs.rdx, 0x1234_5678);
    assert_eq!(cpu.regs.rcx, 0xffff_ffff_0000_001b);
    assert_eq!(cpu.rip, 0x1002);
}

#[test]
fn wrmsr_joins_rax_and_rdx() {
    let mut devices = latches();
    let mut cpu = vcpu(0xaaaa_aaaa_1111_2222, 0x1b, 0xbbbb_bbbb_3333_4444);
    assert_eq!(devices.handle_msr_write(&mut cpu), Ok(()));
    assert_eq!(devices.find_msr_device(0x1b).unwrap().value, 0x3333_4444_1111_2222);
    assert_eq!(cpu.rip, 0x1002);
    assert_eq!(cpu.regs.rax, 0xaaaa_aaaa_1111_2222);
}

#[test]
fn failing_msr_device_fails_the_exit() {
    let mut devices = latches();
    let mut cpu = vcpu(5, 0x800, 6);
    assert_eq!(devices.handle_msr_read(&mut cpu), Err(HyperError::BadState));
    assert_eq!(cpu.regs, GeneralRegisters { rax: 5, rcx: 0x800, rdx: 6 });
    assert_eq!(cpu.rip, 0x1000);
    assert_eq!(devices.handle_msr_write(&mut cpu), Err(HyperError::BadState));
    assert_eq!(cpu.rip, 0x1000);
}

#[test]
fn lookup_finds_the_first_owner() {
    let devices = latches();
    assert_eq!(devices.find_port_io_device(0x3f8).unwrap().value, 0xaabb_ccdd);
    assert_eq!(devices.find_port_io_device(0x3ff).unwrap().value, 0xaabb_ccdd);
    assert_eq!(devices.find_port_io_device(0x81).unwrap().value, 0x1122_3344);
    assert!(devices.find_port_io_device(0x82).is_none());
    assert!(devices.find_port_io_device(0x7f).is_none());
    assert!(devices.find_msr_device(0x1c).is_none());
    assert!(devices.find_msr_device(0x800).unwrap().fails);
}

#[test]
fn devices_are_appended_in_order() {
    let mut devices: DeviceList<Latch, ScratchMsr> = DeviceList::new();
    let mut more = vec![Latch::new(0x10, 4, 1), Latch::new(0x12, 4, 2)];
    devices.add_port_io_device(Latch::new(0x11, 1, 0));
    devices.add_port_io_devices(&mut more);
    assert!(more.is_empty());
    assert_eq!(devices.find_port_io_device(0x10).unwrap().value, 1);
    assert_eq!(devices.find_port_io_device(0x11).unwrap().value, 0);
    assert_eq!(devices.find_port_io_device(0x14).unwrap().value, 2);
    let mut msrs = vec![
        ScratchMsr { base: 7, value: 70, fails: false },
        ScratchMsr { base: 7, value: 71, fails: false },
    ];
    devices.add_msr_devices(&mut msrs);
    assert!(msrs.is_empty());
    assert_eq!(devices.find_msr_device(7).unwrap().value, 70);
}

#[test]
fn in_merges_the_value_into_rax() {
    let mut devices = latches();
    let mut cpu = io_vcpu(0x0102_0304_0506_0708, 0x80, 1, true);
    let handled = devices.handle_io_instruction(&mut cpu, &exit(VmxExitReason::IoInstruction, 1));
    assert_eq!(handled, Some(Ok(())));
    assert_eq!(cpu.regs.rax, 0x0102_0304_0506_0744);
    assert_eq!(cpu.rip, 0x1001);

    let mut cpu = io_vcpu(0x0102_0304_0506_0708, 0x80, 2, true);
    let handled = devices.handle_io_instruction(&mut cpu, &exit(VmxExitReason::IoInstruction, 2));
    assert_eq!(handled, Some(Ok(())));
    assert_eq!(cpu.regs.rax, 0x0102_0304_0506_3344);
    assert_eq!(cpu.rip, 0x1002);

    let mut cpu = io_vcpu(0x0102_0304_0506_0708, 0x80, 4, true);
    let handled = devices.handle_io_instruction(&mut cpu, &exit(VmxExitReason::IoInstruction, 1));
    assert_eq!(handled, Some(Ok(())));
    assert_eq!(cpu.regs.rax, 0x0000_0000_1122_3344);
    assert_eq!(devices.find_port_io_device(0x80).unwrap().reads, 3);
}

#[test]
fn merge_keeps_the_bits_above_the_access() {
    assert_eq!(merge_io_value(0xffff_ffff_ffff_ffff, 0x1234_5678, 1), 0xffff_ffff_ffff_ff78);
    assert_eq!(merge_io_value(0xffff_ffff_ffff_ffff, 0x1234_5678, 2), 0xffff_ffff_ffff_5678);
    assert_eq!(merge_io_value(0xffff_ffff_ffff_ffff, 0x1234_5678, 4), 0x0000_0000_1234_5678);
    assert_eq!(merge_io_value(0, 0xffff_ffff, 1), 0xff);
    assert_eq!(io_out_value(0x1122_3344_5566_7788, 1), 0x88);
    assert_eq!(io_out_value(0x1122_3344_5566_7788, 2), 0x7788);
    assert_eq!(io_out_value(0x1122_3344_5566_7788, 4), 0x5566_7788);
}

#[test]
fn out_hands_the_low_bits_of_rax_to_the_device() {
    let mut devices = latches();
    let mut cpu = io_vcpu(0x1122_3344_5566_7788, 0x3f9, 2, false);
    let handled = devices.handle_io_instruction(&mut cpu, &exit(VmxExitReason::IoInstruction, 1));
    assert_eq!(handled, Some(Ok(())));
    assert_eq!(devices.find_port_io_device(0x3f8).unwrap().value, 0x7788);
    assert_eq!(devices.find_port_io_device(0x3f8).unwrap().writes, 1);
    assert_eq!(cpu.regs.rax, 0x1122_3344_5566_7788);
    assert_eq!(cpu.rip, 0x1001);

    let mut cpu = io_vcpu(0x1122_3344_5566_7788, 0x3f9, 4, false);
    devices.handle_io_instruction(&mut cpu, &exit(VmxExitReason::IoInstruction, 1));
    assert_eq!(devices.find_port_io_device(0x3f8).unwrap().value, 0x5566_7788);
    let mut cpu = io_vcpu(0x1122_3344_5566_7788, 0x3f9, 1, false);
    devices.handle_io_instruction(&mut cpu, &exit(VmxExitReason::IoInstruction, 1));
    assert_eq!(devices.find_port_io_device(0x3f8).unwrap().value, 0x88);
}

#[test]
fn string_and_repeated_io_is_not_supported() {
    let mut devices = latches();
    let mut cpu = io_vcpu(7, 0x80, 1, true);
    cpu.io_exit =
        Ok(VmxIoExitInfo { access_size: 1, is_in: true, is_string: true, is_repeat: false, port: 0x80 });
    let handled = devices.handle_io_instruction(&mut cpu, &exit(VmxExitReason::IoInstruction, 1));
    assert_eq!(handled, Some(Err(HyperError::NotSupported)));
    assert_eq!(cpu.regs.rax, 7);
    assert_eq!(cpu.rip, 0x1000);
    cpu.io_exit =
        Ok(VmxIoExitInfo { access_size: 1, is_in: false, is_string: false, is_repeat: true, port: 0x80 });
    let handled = devices.handle_io_instruction(&mut cpu, &exit(VmxExitReason::IoInstruction, 1));
    assert_eq!(handled, Some(Err(HyperError::NotSupported)));
    assert_eq!(cpu.rip, 0x1000);
    assert_eq!(devices.find_port_io_device(0x80).unwrap().reads, 0);
    assert_eq!(devices.find_port_io_device(0x80).unwrap().writes, 0);
}

#[test]
fn port_without_device_has_no_handler() {
    let mut devices = latches();
    let mut cpu = io_vcpu(7, 0x90, 1, true);
    let handled = devices.handle_io_instruction(&mut cpu, &exit(VmxExitReason::IoInstruction, 1));
    assert_eq!(handled, None);
    assert_eq!(cpu.regs.rax, 7);
    assert_eq!(cpu.rip, 0x1000);
}

#[test]
fn exit_without_io_information_fails() {
    let mut devices = latches();
    let mut cpu = vcpu(7, 0, 0);
    let handled = devices.handle_io_instruction(&mut cpu, &exit(VmxExitReason::IoInstruction, 1));
    assert_eq!(handled, Some(Err(HyperError::BadState)));
    assert_eq!(cpu.rip, 0x1000);
}

#[test]
fn failing_device_leaves_the_cpu_where_it_was() {
    let mut devices = latches();
    let mut cpu = io_vcpu(7, 0x81, 1, true);
    let handled = devices.handle_io_instruction(&mut cpu, &exit(VmxExitReason::IoInstruction, 1));
    assert_eq!(handled, Some(Err(HyperError::BadState)));
    assert_eq!(cpu.regs.rax, 7);
    assert_eq!(cpu.rip, 0x1000);
    let mut cpu = io_vcpu(7, 0x81, 1, false);
    let handled = devices.handle_io_instruction(&mut cpu, &exit(VmxExitReason::IoInstruction, 1));
    assert_eq!(handled, Some(Err(HyperError::BadState)));
    assert_eq!(cpu.rip, 0x1000);
}

#[test]
fn invalid_access_size_fails_the_exit() {
    let mut devices = latches();
    let mut cpu = io_vcpu(7, 0x80, 3, true);
    let handled = devices.handle_io_instruction(&mut cpu, &exit(VmxExitReason::IoInstruction, 1));
    assert_eq!(handled, Some(Err(HyperError::InvalidParam)));
    let mut cpu = io_vcpu(7, 0x80, 8, false);
    let handled = devices.handle_io_instruction(&mut cpu, &exit(VmxExitReason::IoInstruction, 1));
    assert_eq!(handled, Some(Err(HyperError::InvalidParam)));
    assert_eq!(devices.find_port_io_device(0x80).unwrap().writes, 0);
    assert_eq!(cpu.rip, 0x1000);
}

#[test]
fn instruction_length_wraps_the_instruction_pointer() {
    let mut devices = latches();
    let mut cpu = io_vcpu(0, 0x80, 1, true);
    cpu.rip = 0xffff_ffff_ffff_ffff;
    devices.handle_io_instruction(&mut cpu, &exit(VmxExitReason::IoInstruction, 2));
    assert_eq!(cpu.rip, 1);
    let mut cpu = io_vcpu(0, 0x80, 1, true);
    devices.handle_io_instruction(&mut cpu, &exit(VmxExitReason::IoInstruction, 0x103));
    assert_eq!(cpu.rip, 0x1003);
    let mut cpu = vcpu(0, 0, 0);
    cpu.advance_rip(0xff);
    assert_eq!(cpu.rip, 0x10ff);
}

#[test]
fn guest_probes_a_bar_through_the_table() {
    let mut pci = PCIConfigurationSpace::new(0xcf8, 8);
    let mut device = hv_device::pci_dev::PCIDevice {
        vendor_id: 0x8086,
        device_id: 0x10d3,
        command: 0,
        status: 0,
        revision_id_class_code: [0, 0, 0, 2],
        cacheline_size: 0,
        latency_timer: 0,
        header_type: 0,
        bist: 0,
        bar: [0xfeb8_0000, 0, 0, 0, 0, 0],
        cardbus_cis_pointer: 0,
        subsystem_vendor_id: 0,
        subsystem_id: 0,
        expansion_rom_base_address: 0,
        capabilities_pointer: 0,
        _reserved1: 0,
        _reserved2: 0,
        interrupt_line: 0,
        interrupt_pin: 0,
        min_gnt: 0,
        max_lat: 0,
        capabilities: hv_device::capability_map::CapabilityMap::new(),
        bar_size: [0xfffe_0000, 0, 0, 0, 0, 0],
        expansion_rom_base_address_size: 0,
        num_msix_vectors: 0,
        msix_region_size: 0,
        msix_address: 0,
        bus: 0,
        slot: 2,
        func: 0,
    };
    device.command = 0x103;
    pci.register_device(device).unwrap();
    let mut devices: DeviceList<PCIConfigurationSpace, ScratchMsr> = DeviceList::new();
    devices.add_port_io_device(pci);
    let io = exit(VmxExitReason::IoInstruction, 1);
    let selector = make_selector(0, 2, 0, 0x10).unwrap() as u64;

    let mut cpu = io_vcpu(selector, 0xcf8, 4, false);
    assert_eq!(devices.handle_io_instruction(&mut cpu, &io), Some(Ok(())));
    let mut cpu = io_vcpu(0xffff_ffff, 0xcfc, 4, false);
    assert_eq!(devices.handle_io_instruction(&mut cpu, &io), Some(Ok(())));
    let mut cpu = io_vcpu(selector, 0xcf8, 4, false);
    assert_eq!(devices.handle_io_instruction(&mut cpu, &io), Some(Ok(())));
    let mut cpu = io_vcpu(0x5555_5555_5555_5555, 0xcfc, 4, true);
    assert_eq!(devices.handle_io_instruction(&mut cpu, &io), Some(Ok(())));
    assert_eq!(cpu.regs.rax, 0xfffe_0000);
}

#[test]
fn exits_go_to_the_handler_of_their_reason() {
    let mut per_cpu = X64VcpuDevices::new(latches());
    let mut cpu = io_vcpu(0, 0x80, 4, true);
    cpu.regs.rcx = 0x1b;
    assert_eq!(per_cpu.vmexit_handler(&mut cpu, &exit(VmxExitReason::IoInstruction, 1)), Some(Ok(())));
    assert_eq!(cpu.regs.rax, 0x1122_3344);
    assert_eq!(per_cpu.vmexit_handler(&mut cpu, &exit(VmxExitReason::MsrRead, 2)), Some(Ok(())));
    assert_eq!(cpu.regs.rax, 0x9abc_def0);
    assert_eq!(per_cpu.vmexit_handler(&mut cpu, &exit(VmxExitReason::MsrWrite, 2)), Some(Ok(())));
    assert_eq!(cpu.rip, 0x1005);
    assert_eq!(per_cpu.vmexit_handler(&mut cpu, &exit(VmxExitReason::Other, 2)), None);
    assert_eq!(per_cpu.vmexit_handler(&mut cpu, &exit(VmxExitReason::ExternalInterrupt, 2)), None);
    assert_eq!(per_cpu.vmexit_handler(&mut cpu, &exit(VmxExitReason::EptViolation, 2)), None);
    assert_eq!(cpu.rip, 0x1005);
    assert_eq!(per_cpu.hypercall_handler(&mut cpu, 1, (2, 3)), Err(HyperError::NotSupported));
}

#[test]
fn guest_devices_decide_on_interrupts_and_memory_faults() {
    let mut per_vm: X64VmDevices<Latch, ScratchMsr> = X64VmDevices::new().unwrap();
    per_vm.devices.add_port_io_device(Latch::new(0x80, 2, 9));
    let mut cpu = io_vcpu(0, 0x80, 1, true);
    assert_eq!(per_vm.vmexit_handler(&mut cpu, &exit(VmxExitReason::IoInstruction, 1)), Some(Ok(())));
    assert_eq!(cpu.regs.rax, 9);
    assert_eq!(
        per_vm.vmexit_handler(&mut cpu, &exit(VmxExitReason::MsrRead, 2)),
        Some(Err(HyperError::NotSupported))
    );
    assert_eq!(
        per_vm.vmexit_handler(&mut cpu, &exit(VmxExitReason::EptViolation, 0)),
        Some(Err(HyperError::BadState))
    );
    assert_eq!(per_vm.vmexit_handler(&mut cpu, &exit(VmxExitReason::Other, 0)), None);
    assert_eq!(
        per_vm.vmexit_handler(&mut cpu, &exit(VmxExitReason::ExternalInterrupt, 0)),
        Some(Err(HyperError::BadState))
    );
    cpu.interrupt_exit = Ok(VmxInterruptInfo { vector: 0xf0, valid: true });
    assert_eq!(
        per_vm.vmexit_handler(&mut cpu, &exit(VmxExitReason::ExternalInterrupt, 0)),
        Some(Ok(()))
    );
    cpu.interrupt_exit = Ok(VmxInterruptInfo { vector: 0x30, valid: true });
    assert_eq!(
        X64VmDevices::<Latch, ScratchMsr>::handle_external_interrupt(&cpu),
        Err(HyperError::NotSupported)
    );
    cpu.interrupt_exit = Ok(VmxInterruptInfo { vector: 0xf0, valid: false });
    assert_eq!(
        X64VmDevices::<Latch, ScratchMsr>::handle_external_interrupt(&cpu),
        Err(HyperError::BadState)
    );
    cpu.interrupt_exit = Err(HyperError::InvalidParam);
    assert_eq!(
        X64VmDevices::<Latch, ScratchMsr>::handle_external_interrupt(&cpu),
        Err(HyperError::InvalidParam)
    );
    assert_eq!(cpu.rip, 0x1001);
}

#[test]
fn clock_tick_comes_every_millisecond_after_ten_seconds() {
    let mut per_cpu = X64VcpuDevices::new(latches());
    assert_eq!(per_cpu.last, None);
    assert!(!per_cpu.check_events(5_000, false));
    assert_eq!(per_cpu.last, Some(10_000_005_000));
    assert!(!per_cpu.check_events(10_000_005_000, false));
    assert!(!per_cpu.check_events(10_001_005_000, false));
    assert_eq!(per_cpu.last, Some(10_000_005_000));
    assert!(per_cpu.check_events(10_001_005_001, false));
    assert_eq!(per_cpu.last, Some(10_001_005_001));
    assert!(!per_cpu.check_events(10_001_005_002, false));
    assert!(!per_cpu.check_events(10_003_000_000, true));
    assert_eq!(per_cpu.last, Some(10_003_000_000));
    assert!(!per_cpu.check_events(0, false));
    assert_eq!(per_cpu.last, Some(10_003_000_000));
    per_cpu.last = Some(u64::MAX - 10);
    assert!(!per_cpu.check_events(u64::MAX - 10_000_000_000, false));
    assert_eq!(per_cpu.last, Some(u64::MAX - 10));
}

#[test]
fn hypercalls_by_number() {
    let ready = [0x7072_6373, 0x5264_7921, 0, 0, 0, 0];
    assert_eq!(handle_hvc(0x5368_6477, &ready), Ok(HvcAction::NotifyAllProcesses));
    assert_eq!(handle_hvc(0x5368_6477, &[0x7072_6373, 0, 0, 0, 0, 0]), Err(HyperError::InvalidParam));
    assert_eq!(handle_hvc(0x5368_6477, &[0, 0x5264_7921, 0, 0, 0, 0]), Err(HyperError::InvalidParam));
    assert_eq!(
        handle_hvc(0x454d_6170, &[0x1, 0x8000_0000, 0x2, 0x4000_0000, 0x1000, 0xffff]),
        Ok(HvcAction::MapRegion { gpa: 0x2_4000_0000, hpa: 0x1_8000_0000, size: 0x1000 })
    );
    assert_eq!(
        handle_hvc(0x454d_6170, &[0xffff_ffff, 0xffff_ffff, 0, 1, 0xffff_ffff, 0]),
        Ok(HvcAction::MapRegion { gpa: 1, hpa: u64::MAX, size: 0xffff_ffff })
    );
    assert_eq!(handle_hvc(0, &ready), Ok(HvcAction::Nothing));
    assert_eq!(handle_hvc(usize::MAX, &ready), Ok(HvcAction::Nothing));
}
