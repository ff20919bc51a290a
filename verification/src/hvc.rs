//! Hypercalls: what the guest asks of the hypervisor by number.

use vstd::prelude::*;
use crate::error::HyperError;

verus! {

/// The hypercall by which the guest reports that its shadow process is
/// ready: "Shdw".
pub const HVC_SHADOW_PROCESS_READY: usize = 0x53686477;

/// The first argument that the report of the shadow process carries:
/// "prcs".
pub const HVC_SHADOW_PROCESS_READY_MAGIC_0: u32 = 0x70726373;

/// The second argument that the report of the shadow process carries:
/// "Rdy!".
pub const HVC_SHADOW_PROCESS_READY_MAGIC_1: u32 = 0x52647921;

/// The hypercall by which the guest asks for a mapping of its memory:
/// "EMap".
pub const HVC_EPT_MAPPING_REQUEST: usize = 0x454d6170;

/// What a hypercall asks the hypervisor to do.
#[derive(Clone, Copy, Debug, PartialEq, Eq, Structural)]
pub enum HvcAction {
    /// Nothing: the hypercall is not known.
    Nothing,
    /// To wake every process that waits for the shadow process.
    NotifyAllProcesses,
    /// To map `size` bytes of the guest's memory at the guest-physical
    /// address `gpa` to the host-physical address `hpa`, readable,
    /// writable and executable.
    MapRegion { gpa: u64, hpa: u64, size: u64 },
}

/// The 64-bit number with the high half `high` and the low half `low`.
pub open spec fn joined(high: u32, low: u32) -> u64 {
    (high as u64) << 32 | (low as u64)
}

/// What the hypercall `id` with the arguments `args` asks for.
///
/// The report of the shadow process must carry its two magic numbers, or
/// it is an invalid parameter. The request for a mapping gives the host
/// address in its first two arguments, the guest address in the next two,
/// high half first, and the size in the fifth.
pub open spec fn hvc_action(id: usize, args: [u32; 6]) -> Result<HvcAction, HyperError> {
    if id == HVC_SHADOW_PROCESS_READY {
        if args[0] != HVC_SHADOW_PROCESS_READY_MAGIC_0 || args[1]
            != HVC_SHADOW_PROCESS_READY_MAGIC_1 {
            Err(HyperError::InvalidParam)
        } else {
            Ok(HvcAction::NotifyAllProcesses)
        }
    } else if id == HVC_EPT_MAPPING_REQUEST {
        Ok(
            HvcAction::MapRegion {
                hpa: joined(args[0], args[1]),
                gpa: joined(args[2], args[3]),
                size: args[4] as u64,
            },
        )
    } else {
        Ok(HvcAction::Nothing)
    }
}

/// Decides what the hypercall `id` with the arguments `args` asks for.
pub fn handle_hvc(id: usize, args: &[u32; 6]) -> (result: Result<HvcAction, HyperError>)
    ensures
        result == hvc_action(id, *args),
{
    if id == HVC_SHADOW_PROCESS_READY {
        if args[0] != HVC_SHADOW_PROCESS_READY_MAGIC_0 || args[1]
            != HVC_SHADOW_PROCESS_READY_MAGIC_1 {
            return Err(HyperError::InvalidParam);
        }
        Ok(HvcAction::NotifyAllProcesses)
    } else if id == HVC_EPT_MAPPING_REQUEST {
        let hpa: u64 = (args[0] as u64) << 32 | (args[1] as u64);
        let gpa: u64 = (args[2] as u64) << 32 | (args[3] as u64);
        let size: u64 = args[4] as u64;
        Ok(HvcAction::MapRegion { gpa, hpa, size })
    } else {
        Ok(HvcAction::Nothing)
    }
}

} // verus!
