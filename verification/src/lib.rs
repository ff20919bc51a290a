//! Device emulation and VM-exit dispatch for a hypervisor that runs one
//! x86_64 guest.
//!
//! The core is the PCI configuration-space controller ([`pci`]), the
//! registry of virtual PCI devices ([`pci_registry`], [`pci_dev`]) with
//! their capability chains ([`capability`], [`capability_map`]), and the
//! tables that route port-I/O and MSR exits to the device that owns the
//! address ([`device`], [`dispatch`], [`vm_devices`]).
//!
//! Around it stand what the core is set up from and runs with: the
//! guest's configuration ([`vm_config`]) and what it comes to
//! ([`device_plan`]), the list of guests ([`vm`]), hypercalls ([`hvc`]),
//! addresses and address ranges ([`memory_addr`], [`addr`], [`range`]),
//! and sets of memory mappings ([`memory_set`]).
//!
//! Nothing here locks, and nothing touches the machine: a caller that
//! shares a device between virtual CPUs guards it, and a caller that
//! passes ports through carries out the accesses that [`pcip`] plans.

pub mod addr;
pub mod bytes;
pub mod capability;
pub mod capability_map;
pub mod device;
pub mod device_plan;
pub mod dispatch;
pub mod error;
pub mod hvc;
pub mod memory_addr;
pub mod memory_set;
pub mod pci;
pub mod pci_dev;
pub mod pci_registry;
pub mod pcip;
pub mod range;
pub mod rw_struct;
pub mod text;
pub mod vcpu;
pub mod vm;
pub mod vm_config;
pub mod vm_devices;
