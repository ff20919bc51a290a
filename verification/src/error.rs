//! Errors reported by emulated devices and by the exit dispatcher.

use vstd::prelude::*;

verus! {

/// Why a device access or a dispatch step was refused.
#[derive(Clone, Copy, Debug, PartialEq, Eq, Structural)]
pub enum HyperError {
    /// A malformed request: an access size other than 1, 2 or 4 bytes, an
    /// address outside the device's windows, an ill-formed range.
    InvalidParam,
    /// The guest asked for something that is not emulated: string or
    /// repeated port I/O, or a model-specific register that no device owns.
    NotSupported,
    /// An identity that is already taken, or outside the table it indexes.
    OutOfRange,
    /// The stored state would become inconsistent.
    BadState,
}

/// The result of a device access or of a dispatch step.
pub type HyperResult<T = ()> = Result<T, HyperError>;

/// Whether `size` is a width a port access may have.
pub open spec fn valid_access_size(size: u8) -> bool {
    size == 1 || size == 2 || size == 4
}

/// The value that a read of `size` bytes yields where nothing answers: all
/// bits of the accessed width set.
pub open spec fn all_ones(size: u8) -> u32
    recommends
        valid_access_size(size),
{
    if size == 1 {
        0xff
    } else if size == 2 {
        0xffff
    } else {
        0xffff_ffff
    }
}

} // verus!
