//! The virtual CPUs of a guest.

use vstd::prelude::*;

verus! {

/// The virtual CPUs of a guest.
#[derive(Clone, Copy, Debug)]
pub struct VmCpuConfig {
    /// The number of virtual CPUs.
    pub num: usize,
    /// The physical CPUs that may run them, one bit each.
    pub allocate_bitmap: usize,
    /// The physical CPU that runs the first virtual CPU.
    pub master: i32,
}

impl VmCpuConfig {
    /// The configuration of a guest without CPUs.
    pub fn default() -> (config: VmCpuConfig)
        ensures
            config == (VmCpuConfig { num: 0, allocate_bitmap: 0, master: 0 }),
    {
        VmCpuConfig { num: 0, allocate_bitmap: 0, master: 0 }
    }

    /// The configuration with the given values.
    pub fn new(num: usize, allocate_bitmap: usize, master: i32) -> (config: Self)
        ensures
            config == (VmCpuConfig { num, allocate_bitmap, master }),
    {
        Self { num, allocate_bitmap, master }
    }
}

} // verus!
