//! The images that a guest is started from.

use vstd::prelude::*;
use crate::vm_config::NAME_MAX_LENGTH;

verus! {

/// The images that a guest is started from.
#[derive(Clone, Debug)]
pub struct VmImageConfig {
    /// The name of the kernel image.
    pub kernel_img_name: Option<heapless::String<NAME_MAX_LENGTH>>,
    /// Where the kernel is loaded in the guest's physical address space.
    pub kernel_load_ipa: usize,
    /// Where the kernel is loaded in the host's physical address space.
    pub kernel_load_pa: usize,
    /// Where the BIOS lies in the host's physical address space.
    pub bios_paddr: usize,
    /// Where the BIOS is entered.
    pub bios_entry: usize,
    /// The size of the BIOS.
    pub bios_size: usize,
}

impl VmImageConfig {
    /// No image: no name, and every number 0.
    pub fn default() -> (config: VmImageConfig)
        ensures
            config == (VmImageConfig {
                kernel_img_name: None,
                kernel_load_ipa: 0,
                kernel_load_pa: 0,
                bios_paddr: 0,
                bios_entry: 0,
                bios_size: 0,
            }),
    {
        VmImageConfig {
            kernel_img_name: None,
            kernel_load_ipa: 0,
            kernel_load_pa: 0,
            bios_paddr: 0,
            bios_entry: 0,
            bios_size: 0,
        }
    }

    /// The images with the given values.
    pub fn new(
        kernel_img_name: Option<heapless::String<NAME_MAX_LENGTH>>,
        kernel_load_ipa: usize,
        kernel_load_pa: usize,
        bios_paddr: usize,
        bios_entry: usize,
        bios_size: usize,
    ) -> (config: VmImageConfig)
        ensures
            config == (VmImageConfig {
                kernel_img_name,
                kernel_load_ipa,
                kernel_load_pa,
                bios_paddr,
                bios_entry,
                bios_size,
            }),
    {
        VmImageConfig {
            kernel_img_name,
            kernel_load_ipa,
            kernel_load_pa,
            bios_paddr,
            bios_entry,
            bios_size,
        }
    }
}

} // verus!
