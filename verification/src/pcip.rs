//! The pass-through of the configuration-space ports: the guest's
//! accesses go to the ports of the machine itself.
//!
//! What is decided here is how each access is to be carried out; touching
//! the ports is left to the caller.

use vstd::prelude::*;
use core::ops::Range;
use crate::error::{valid_access_size, HyperError, HyperResult};

verus! {

/// The width of a port access.
#[derive(Clone, Copy, Debug, PartialEq, Eq, Structural)]
pub enum AccessWidth {
    /// One byte.
    Byte,
    /// Two bytes.
    Word,
    /// Four bytes.
    Dword,
}

/// A write to a port of the machine: the width is that of the value.
#[derive(Clone, Copy, Debug, PartialEq, Eq, Structural)]
pub enum PortWrite {
    /// One byte.
    Byte(u8),
    /// Two bytes.
    Word(u16),
    /// Four bytes.
    Dword(u32),
}

/// The width of an access of `access_size` bytes.
pub open spec fn width_of(access_size: u8) -> AccessWidth
    recommends
        valid_access_size(access_size),
{
    if access_size == 1 {
        AccessWidth::Byte
    } else if access_size == 2 {
        AccessWidth::Word
    } else {
        AccessWidth::Dword
    }
}

/// The write that hands the low `access_size` bytes of `value` to a port.
pub open spec fn port_write_of(access_size: u8, value: u32) -> PortWrite
    recommends
        valid_access_size(access_size),
{
    if access_size == 1 {
        PortWrite::Byte((value % 0x100) as u8)
    } else if access_size == 2 {
        PortWrite::Word((value % 0x1_0000) as u16)
    } else {
        PortWrite::Dword(value)
    }
}

/// The device that passes the eight configuration-space ports through.
pub struct PCIPassthrough {
    port_base: u16,
    port_end: u16,
}

impl PCIPassthrough {
    /// The first port that the device owns.
    pub closed spec fn port_base(&self) -> u16 {
        self.port_base
    }

    /// The port behind the last one that the device owns.
    pub closed spec fn port_end(&self) -> u16 {
        self.port_end
    }

    /// The device for the eight ports from `port_base` on.
    pub fn new(port_base: u16) -> (device: Self)
        requires
            port_base + 8 <= u16::MAX,
        ensures
            device.port_base() == port_base,
            device.port_end() == port_base + 8,
    {
        Self { port_base, port_end: port_base + 8 }
    }

    /// The ports that the device owns.
    pub fn port_range(&self) -> (range: Range<u16>)
        ensures
            range == (self.port_base()..self.port_end()),
    {
        self.port_base..self.port_end
    }

    /// The width with which a read of `access_size` bytes is to be
    /// carried out on the machine's port. What the port returns,
    /// zero-extended, is what the guest reads.
    ///
    /// An access size other than 1, 2 or 4 is an invalid parameter.
    pub fn read_width(access_size: u8) -> (result: HyperResult<AccessWidth>)
        ensures
            result == if valid_access_size(access_size) {
                Ok::<AccessWidth, HyperError>(width_of(access_size))
            } else {
                Err::<AccessWidth, HyperError>(HyperError::InvalidParam)
            },
    {
        if access_size == 1 {
            Ok(AccessWidth::Byte)
        } else if access_size == 2 {
            Ok(AccessWidth::Word)
        } else if access_size == 4 {
            Ok(AccessWidth::Dword)
        } else {
            Err(HyperError::InvalidParam)
        }
    }

    /// The write that is to be carried out on the machine's port for the
    /// guest's write of the low `access_size` bytes of `value`.
    ///
    /// An access size other than 1, 2 or 4 is an invalid parameter.
    pub fn port_write(access_size: u8, value: u32) -> (result: HyperResult<PortWrite>)
        ensures
            result == if valid_access_size(access_size) {
                Ok::<PortWrite, HyperError>(port_write_of(access_size, value))
            } else {
                Err::<PortWrite, HyperError>(HyperError::InvalidParam)
            },
    {
        if access_size == 1 {
            Ok(PortWrite::Byte((value % 0x100) as u8))
        } else if access_size == 2 {
            Ok(PortWrite::Word((value % 0x1_0000) as u16))
        } else if access_size == 4 {
            Ok(PortWrite::Dword(value))
        } else {
            Err(HyperError::InvalidParam)
        }
    }
}

} // verus!
