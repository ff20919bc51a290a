//! The configuration of a guest as a whole.

use vstd::prelude::*;
use crate::vm_config::cpu_config::VmCpuConfig;
use crate::vm_config::emulated_dev_config::VmEmulatedDeviceConfigList;
use crate::vm_config::image_config::VmImageConfig;
use crate::vm_config::memory_config::VmMemoryConfig;
use crate::vm_config::passthrough_dev_config::VmPassthroughDeviceConfigList;
use crate::vm_config::NAME_MAX_LENGTH;

verus! {

/// The configuration of a guest.
#[derive(Clone, Debug)]
pub struct VmConfigEntry {
    /// The guest's identity.
    pub id: usize,
    /// The guest's name.
    pub name: Option<heapless::String<NAME_MAX_LENGTH>>,
    /// The command line of the guest's kernel.
    pub cmdline: heapless::String<NAME_MAX_LENGTH>,
    /// The images that the guest is started from.
    pub image: VmImageConfig,
    /// The guest's memory.
    pub memory: VmMemoryConfig,
    /// The guest's CPUs.
    pub cpu: VmCpuConfig,
    /// The guest's emulated devices.
    pub vm_emu_dev_config_list: VmEmulatedDeviceConfigList,
    /// The guest's passed-through devices.
    pub vm_passthrough_dev_config_list: VmPassthroughDeviceConfigList,
}

impl VmConfigEntry {
    /// The configuration with the given values.
    pub fn new(
        id: usize,
        name: Option<heapless::String<NAME_MAX_LENGTH>>,
        cmd: heapless::String<NAME_MAX_LENGTH>,
        image: VmImageConfig,
        memory: VmMemoryConfig,
        cpu: VmCpuConfig,
        vm_emu_dev_config: VmEmulatedDeviceConfigList,
        vm_passthrough_dev_config: VmPassthroughDeviceConfigList,
    ) -> (entry: Self)
        ensures
            entry == (VmConfigEntry {
                id,
                name,
                cmdline: cmd,
                image,
                memory,
                cpu,
                vm_emu_dev_config_list: vm_emu_dev_config,
                vm_passthrough_dev_config_list: vm_passthrough_dev_config,
            }),
    {
        Self {
            id,
            name,
            cmdline: cmd,
            image,
            memory,
            cpu,
            vm_emu_dev_config_list: vm_emu_dev_config,
            vm_passthrough_dev_config_list: vm_passthrough_dev_config,
        }
    }
}

} // verus!
