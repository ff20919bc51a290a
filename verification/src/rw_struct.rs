//! Byte-level access to the structures that make up a device's
//! configuration space.

use vstd::prelude::*;
use crate::bytes::{
    le_u16, le_u32, splice, u16_from_le, u16_le, u16_to_le, u32_from_le, u32_le, u32_to_le,
};

verus! {

/// A structure that can be read and written byte by byte.
///
/// The structure has a byte image, `bytes()`. A write replaces part of the
/// image and leaves everything else that the structure holds as it was:
/// the outcome is `with_bytes` of the new image.
pub trait ReadWriteStruct: Sized {
    /// The byte image of the structure.
    spec fn bytes(&self) -> Seq<u8>;

    /// The structure whose image is `image` and that agrees with `self` in
    /// whatever the image does not hold.
    spec fn with_bytes(&self, image: Seq<u8>) -> Self;

    /// `with_bytes` installs the image it is given, and installing a
    /// structure's own image changes nothing.
    proof fn lemma_with_bytes(&self, image: Seq<u8>)
        ensures
            self.with_bytes(self.bytes()) == *self,
            image.len() == self.bytes().len() ==> self.with_bytes(image).bytes() == image,
    ;

    /// The `count` bytes of the image that start at `start`.
    fn read_bytes(&self, start: usize, count: usize) -> (out: Vec<u8>)
        requires
            start + count <= self.bytes().len(),
        ensures
            out@ == self.bytes().subrange(start as int, start + count),
    ;

    /// Replaces the bytes of the image that start at `start` by `bytes`.
    fn write_bytes(&mut self, start: usize, bytes: &[u8])
        requires
            start + bytes@.len() <= old(self).bytes().len(),
        ensures
            *final(self) == old(self).with_bytes(splice(old(self).bytes(), start as int, bytes@)),
    ;

    /// The length of the image of a structure of this type, where the type
    /// fixes it; 0 where it does not.
    spec fn size_of_type() -> u8;

    /// The length of the image of a structure of this type, where the type
    /// fixes it; 0 where it does not.
    fn struct_size() -> (size: u8)
        ensures
            size == Self::size_of_type(),
    ;
}

/// The byte of `read_struct` at `start`.
pub fn read_u8<T: ReadWriteStruct>(read_struct: &T, start: usize) -> (value: u8)
    requires
        start + 1 <= read_struct.bytes().len(),
    ensures
        value == read_struct.bytes()[start as int],
{
    let slice = read_struct.read_bytes(start, 1);
    slice[0]
}

/// The 16-bit integer that `read_struct` holds at `start`, little-endian.
pub fn read_u16<T: ReadWriteStruct>(read_struct: &T, start: usize) -> (value: u16)
    requires
        start + 2 <= read_struct.bytes().len(),
    ensures
        value == le_u16(read_struct.bytes().subrange(start as int, start + 2)),
{
    let slice = read_struct.read_bytes(start, 2);
    assert(slice@.subrange(0, 2) =~= slice@);
    u16_from_le(slice.as_slice(), 0)
}

/// The 32-bit integer that `read_struct` holds at `start`, little-endian.
pub fn read_u32<T: ReadWriteStruct>(read_struct: &T, start: usize) -> (value: u32)
    requires
        start + 4 <= read_struct.bytes().len(),
    ensures
        value == le_u32(read_struct.bytes().subrange(start as int, start + 4)),
{
    let slice = read_struct.read_bytes(start, 4);
    assert(slice@.subrange(0, 4) =~= slice@);
    u32_from_le(slice.as_slice(), 0)
}

/// Stores `value` in the byte of `write_struct` at `start`.
pub fn write_u8<T: ReadWriteStruct>(write_struct: &mut T, start: usize, value: u8)
    requires
        start + 1 <= old(write_struct).bytes().len(),
    ensures
        *final(write_struct) == old(write_struct).with_bytes(
            splice(old(write_struct).bytes(), start as int, seq![value]),
        ),
{
    let mut patch: Vec<u8> = Vec::new();
    patch.push(value);
    assert(patch@ =~= seq![value]);
    write_struct.write_bytes(start, patch.as_slice());
}

/// Stores `value` in the two bytes of `write_struct` at `start`,
/// little-endian.
pub fn write_u16<T: ReadWriteStruct>(write_struct: &mut T, start: usize, value: u16)
    requires
        start + 2 <= old(write_struct).bytes().len(),
    ensures
        *final(write_struct) == old(write_struct).with_bytes(
            splice(old(write_struct).bytes(), start as int, u16_le(value)),
        ),
{
    let patch = u16_to_le(value);
    write_struct.write_bytes(start, patch.as_slice());
}

/// Stores `value` in the four bytes of `write_struct` at `start`,
/// little-endian.
pub fn write_u32<T: ReadWriteStruct>(write_struct: &mut T, start: usize, value: u32)
    requires
        start + 4 <= old(write_struct).bytes().len(),
    ensures
        *final(write_struct) == old(write_struct).with_bytes(
            splice(old(write_struct).bytes(), start as int, u32_le(value)),
        ),
{
    let patch = u32_to_le(value);
    write_struct.write_bytes(start, patch.as_slice());
}

} // verus!
