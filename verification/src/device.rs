//! The contract of a device that answers a range of I/O ports or of
//! model-specific registers.

use vstd::prelude::*;
use core::ops::Range;
use crate::error::{valid_access_size, HyperError, HyperResult};

verus! {

/// A device that owns a range of I/O ports.
///
/// What an access does to the device and what it returns is the device's
/// own affair: each device states it as a relation between the device
/// before the access, the device after it, and the result. The three
/// functions that describe a device are never run; a device whose code
/// is not verified may give them any body.
pub trait PortIoDevice: Sized {
    /// The ports that the device owns.
    spec fn ports(&self) -> Range<u16>;

    /// Whether a read of `access_size` bytes at `port` may leave the
    /// device as `after` and return `result`.
    spec fn read_outcome(
        &self,
        port: u16,
        access_size: u8,
        after: &Self,
        result: Result<u32, HyperError>,
    ) -> bool;

    /// Whether a write of the low `access_size` bytes of `value` at `port`
    /// may leave the device as `after` and return `result`.
    spec fn write_outcome(
        &self,
        port: u16,
        access_size: u8,
        value: u32,
        after: &Self,
        result: Result<(), HyperError>,
    ) -> bool;

    /// The ports that the device owns.
    fn port_range(&self) -> (range: Range<u16>)
        ensures
            range == self.ports(),
    ;

    /// Reads `access_size` bytes at `port`.
    ///
    /// An access size other than 1, 2 or 4 is an invalid parameter. The
    /// device keeps its ports.
    fn read(&mut self, port: u16, access_size: u8) -> (result: HyperResult<u32>)
        ensures
            old(self).read_outcome(port, access_size, final(self), result),
            final(self).ports() == old(self).ports(),
            !valid_access_size(access_size) ==> result == Err::<u32, HyperError>(
                HyperError::InvalidParam,
            ),
    ;

    /// Writes the low `access_size` bytes of `value` at `port`.
    ///
    /// An access size other than 1, 2 or 4 is an invalid parameter. The
    /// device keeps its ports.
    fn write(&mut self, port: u16, access_size: u8, value: u32) -> (result: HyperResult)
        ensures
            old(self).write_outcome(port, access_size, value, final(self), result),
            final(self).ports() == old(self).ports(),
            !valid_access_size(access_size) ==> result == Err::<(), HyperError>(
                HyperError::InvalidParam,
            ),
    ;
}

/// A device that owns a range of model-specific registers.
///
/// As for a port device, the device states what an access may do, in three
/// functions that are never run.
pub trait VirtMsrDevice: Sized {
    /// The registers that the device owns.
    spec fn msrs(&self) -> Range<u32>;

    /// Whether a read of register `msr` may leave the device as `after`
    /// and return `result`.
    spec fn read_outcome(&self, msr: u32, after: &Self, result: Result<u64, HyperError>) -> bool;

    /// Whether a write of `value` to register `msr` may leave the device
    /// as `after` and return `result`.
    spec fn write_outcome(
        &self,
        msr: u32,
        value: u64,
        after: &Self,
        result: Result<(), HyperError>,
    ) -> bool;

    /// The registers that the device owns.
    fn msr_range(&self) -> (range: Range<u32>)
        ensures
            range == self.msrs(),
    ;

    /// Reads register `msr`. The device keeps its registers.
    fn read(&mut self, msr: u32) -> (result: HyperResult<u64>)
        ensures
            old(self).read_outcome(msr, final(self), result),
            final(self).msrs() == old(self).msrs(),
    ;

    /// Writes `value` to register `msr`. The device keeps its registers.
    fn write(&mut self, msr: u32, value: u64) -> (result: HyperResult)
        ensures
            old(self).write_outcome(msr, value, final(self), result),
            final(self).msrs() == old(self).msrs(),
    ;
}

} // verus!
