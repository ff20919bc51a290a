//! The capability structures that a device chains behind its standard
//! header, each with its byte image.

use vstd::prelude::*;
use crate::bytes::{
    copy_range, le_u16, le_u32, lemma_le_u16_image, lemma_le_u32_image, lemma_u16_round_trip,
    lemma_u32_round_trip, overwrite, u16_from_le, u16_le, u16_to_le, u32_from_le, u32_le,
    u32_to_le,
};
use crate::rw_struct::ReadWriteStruct;

verus! {

/// The MSI-X capability: twelve bytes.
#[derive(Clone, Copy, Debug)]
pub struct CapabilityMsix {
    /// Capability identifier, at offset 0.
    pub id: u8,
    /// Configuration-space offset of the next capability, or 0; at offset 1.
    pub next_region: u8,
    /// Message control, at offset 2.
    pub message_control: u16,
    /// Table offset and BAR indicator, at offset 4.
    pub table: u32,
    /// Pending-bit array offset and BAR indicator, at offset 8.
    pub pba: u32,
}

impl CapabilityMsix {
    /// The capability that the twelve bytes of `image` spell.
    pub open spec fn parse(image: Seq<u8>) -> Self
        recommends
            image.len() == 12,
    {
        CapabilityMsix {
            id: image[0],
            next_region: image[1],
            message_control: le_u16(image.subrange(2, 4)),
            table: le_u32(image.subrange(4, 8)),
            pba: le_u32(image.subrange(8, 12)),
        }
    }

    fn to_image(&self) -> (out: Vec<u8>)
        ensures
            out@ == self.bytes(),
    {
        let mut out: Vec<u8> = Vec::new();
        out.push(self.id);
        out.push(self.next_region);
        assert(out@ =~= seq![self.id, self.next_region]);
        out.extend_from_slice(u16_to_le(self.message_control).as_slice());
        out.extend_from_slice(u32_to_le(self.table).as_slice());
        out.extend_from_slice(u32_to_le(self.pba).as_slice());
        out
    }

    fn from_image(image: &[u8]) -> (out: Self)
        requires
            image@.len() == 12,
        ensures
            out == Self::parse(image@),
    {
        CapabilityMsix {
            id: image[0],
            next_region: image[1],
            message_control: u16_from_le(image, 2),
            table: u32_from_le(image, 4),
            pba: u32_from_le(image, 8),
        }
    }
}

impl ReadWriteStruct for CapabilityMsix {
    open spec fn bytes(&self) -> Seq<u8> {
        seq![self.id, self.next_region] + u16_le(self.message_control) + u32_le(self.table)
            + u32_le(self.pba)
    }

    open spec fn with_bytes(&self, image: Seq<u8>) -> Self {
        Self::parse(image)
    }

    proof fn lemma_with_bytes(&self, image: Seq<u8>) {
        let own = self.bytes();
        assert(own.subrange(2, 4) =~= u16_le(self.message_control));
        assert(own.subrange(4, 8) =~= u32_le(self.table));
        assert(own.subrange(8, 12) =~= u32_le(self.pba));
        lemma_u16_round_trip(self.message_control);
        lemma_u32_round_trip(self.table);
        lemma_u32_round_trip(self.pba);
        if image.len() == 12 {
            lemma_le_u16_image(image.subrange(2, 4));
            lemma_le_u32_image(image.subrange(4, 8));
            lemma_le_u32_image(image.subrange(8, 12));
            assert(Self::parse(image).bytes() =~= image);
        }
    }

    fn read_bytes(&self, start: usize, count: usize) -> (out: Vec<u8>) {
        let image = self.to_image();
        copy_range(image.as_slice(), start, count)
    }

    fn write_bytes(&mut self, start: usize, bytes: &[u8]) {
        let mut image = self.to_image();
        overwrite(&mut image, start, bytes);
        *self = Self::from_image(image.as_slice());
    }

    open spec fn size_of_type() -> u8 {
        12
    }

    fn struct_size() -> (size: u8) {
        12
    }
}

/// The MSI capability with a 64-bit message address: fourteen bytes of
/// registers and two reserved bytes that round it up to sixteen.
#[derive(Clone, Copy, Debug)]
pub struct CapabilityMsi {
    /// Capability identifier, at offset 0.
    pub id: u8,
    /// Configuration-space offset of the next capability, or 0; at offset 1.
    pub next_region: u8,
    /// Message control, at offset 2.
    pub message_control: u16,
    /// Low half of the message address, at offset 4.
    pub message_address: u32,
    /// High half of the message address, at offset 8.
    pub message_upper_address: u32,
    /// Message data, at offset 12.
    pub message_data: u16,
    /// The two bytes that follow the message data, kept as written.
    pub reserved: [u8; 2],
}

impl CapabilityMsi {
    /// The capability that the sixteen bytes of `image` spell.
    pub open spec fn parse(image: Seq<u8>) -> Self
        recommends
            image.len() == 16,
    {
        CapabilityMsi {
            id: image[0],
            next_region: image[1],
            message_control: le_u16(image.subrange(2, 4)),
            message_address: le_u32(image.subrange(4, 8)),
            message_upper_address: le_u32(image.subrange(8, 12)),
            message_data: le_u16(image.subrange(12, 14)),
            reserved: [image[14], image[15]],
        }
    }

    fn to_image(&self) -> (out: Vec<u8>)
        ensures
            out@ == self.bytes(),
    {
        let mut out: Vec<u8> = Vec::new();
        out.push(self.id);
        out.push(self.next_region);
        assert(out@ =~= seq![self.id, self.next_region]);
        out.extend_from_slice(u16_to_le(self.message_control).as_slice());
        out.extend_from_slice(u32_to_le(self.message_address).as_slice());
        out.extend_from_slice(u32_to_le(self.message_upper_address).as_slice());
        out.extend_from_slice(u16_to_le(self.message_data).as_slice());
        out.extend_from_slice(self.reserved.as_slice());
        out
    }

    fn from_image(image: &[u8]) -> (out: Self)
        requires
            image@.len() == 16,
        ensures
            out == Self::parse(image@),
    {
        CapabilityMsi {
            id: image[0],
            next_region: image[1],
            message_control: u16_from_le(image, 2),
            message_address: u32_from_le(image, 4),
            message_upper_address: u32_from_le(image, 8),
            message_data: u16_from_le(image, 12),
            reserved: [image[14], image[15]],
        }
    }
}

impl ReadWriteStruct for CapabilityMsi {
    open spec fn bytes(&self) -> Seq<u8> {
        seq![self.id, self.next_region] + u16_le(self.message_control) + u32_le(
            self.message_address,
        ) + u32_le(self.message_upper_address) + u16_le(self.message_data) + self.reserved@
    }

    open spec fn with_bytes(&self, image: Seq<u8>) -> Self {
        Self::parse(image)
    }

    proof fn lemma_with_bytes(&self, image: Seq<u8>) {
        let own = self.bytes();
        assert(own.subrange(2, 4) =~= u16_le(self.message_control));
        assert(own.subrange(4, 8) =~= u32_le(self.message_address));
        assert(own.subrange(8, 12) =~= u32_le(self.message_upper_address));
        assert(own.subrange(12, 14) =~= u16_le(self.message_data));
        lemma_u16_round_trip(self.message_control);
        lemma_u32_round_trip(self.message_address);
        lemma_u32_round_trip(self.message_upper_address);
        lemma_u16_round_trip(self.message_data);
        assert(Self::parse(own).reserved =~= self.reserved);
        if image.len() == 16 {
            lemma_le_u16_image(image.subrange(2, 4));
            lemma_le_u32_image(image.subrange(4, 8));
            lemma_le_u32_image(image.subrange(8, 12));
            lemma_le_u16_image(image.subrange(12, 14));
            assert(Self::parse(image).bytes() =~= image);
        }
    }

    fn read_bytes(&self, start: usize, count: usize) -> (out: Vec<u8>) {
        let image = self.to_image();
        copy_range(image.as_slice(), start, count)
    }

    fn write_bytes(&mut self, start: usize, bytes: &[u8]) {
        let mut image = self.to_image();
        overwrite(&mut image, start, bytes);
        *self = Self::from_image(image.as_slice());
    }

    open spec fn size_of_type() -> u8 {
        16
    }

    fn struct_size() -> (size: u8) {
        16
    }
}

/// The PCI Express capability, as far as it is emulated: twelve bytes.
#[derive(Clone, Copy, Debug)]
pub struct CapabilityPcie {
    /// Capability identifier, at offset 0.
    pub id: u8,
    /// Configuration-space offset of the next capability, or 0; at offset 1.
    pub next_region: u8,
    /// Capability and link control bits, at offset 2.
    pub control: u16,
    /// Register at offset 4, kept as written.
    pub unknown1: u32,
    /// Register at offset 8, kept as written.
    pub unknown2: u32,
}

impl CapabilityPcie {
    /// The capability that the twelve bytes of `image` spell.
    pub open spec fn parse(image: Seq<u8>) -> Self
        recommends
            image.len() == 12,
    {
        CapabilityPcie {
            id: image[0],
            next_region: image[1],
            control: le_u16(image.subrange(2, 4)),
            unknown1: le_u32(image.subrange(4, 8)),
            unknown2: le_u32(image.subrange(8, 12)),
        }
    }

    fn to_image(&self) -> (out: Vec<u8>)
        ensures
            out@ == self.bytes(),
    {
        let mut out: Vec<u8> = Vec::new();
        out.push(self.id);
        out.push(self.next_region);
        assert(out@ =~= seq![self.id, self.next_region]);
        out.extend_from_slice(u16_to_le(self.control).as_slice());
        out.extend_from_slice(u32_to_le(self.unknown1).as_slice());
        out.extend_from_slice(u32_to_le(self.unknown2).as_slice());
        out
    }

    fn from_image(image: &[u8]) -> (out: Self)
        requires
            image@.len() == 12,
        ensures
            out == Self::parse(image@),
    {
        CapabilityPcie {
            id: image[0],
            next_region: image[1],
            control: u16_from_le(image, 2),
            unknown1: u32_from_le(image, 4),
            unknown2: u32_from_le(image, 8),
        }
    }
}

impl ReadWriteStruct for CapabilityPcie {
    open spec fn bytes(&self) -> Seq<u8> {
        seq![self.id, self.next_region] + u16_le(self.control) + u32_le(self.unknown1) + u32_le(
            self.unknown2,
        )
    }

    open spec fn with_bytes(&self, image: Seq<u8>) -> Self {
        Self::parse(image)
    }

    proof fn lemma_with_bytes(&self, image: Seq<u8>) {
        let own = self.bytes();
        assert(own.subrange(2, 4) =~= u16_le(self.control));
        assert(own.subrange(4, 8) =~= u32_le(self.unknown1));
        assert(own.subrange(8, 12) =~= u32_le(self.unknown2));
        lemma_u16_round_trip(self.control);
        lemma_u32_round_trip(self.unknown1);
        lemma_u32_round_trip(self.unknown2);
        if image.len() == 12 {
            lemma_le_u16_image(image.subrange(2, 4));
            lemma_le_u32_image(image.subrange(4, 8));
            lemma_le_u32_image(image.subrange(8, 12));
            assert(Self::parse(image).bytes() =~= image);
        }
    }

    fn read_bytes(&self, start: usize, count: usize) -> (out: Vec<u8>) {
        let image = self.to_image();
        copy_range(image.as_slice(), start, count)
    }

    fn write_bytes(&mut self, start: usize, bytes: &[u8]) {
        let mut image = self.to_image();
        overwrite(&mut image, start, bytes);
        *self = Self::from_image(image.as_slice());
    }

    open spec fn size_of_type() -> u8 {
        12
    }

    fn struct_size() -> (size: u8) {
        12
    }
}

/// A capability of a kind that is not interpreted: eight bytes, kept as
/// written.
#[derive(Clone, Copy, Debug)]
pub struct CapabilityDummy {
    /// Capability identifier, at offset 0.
    pub id: u8,
    /// Configuration-space offset of the next capability, or 0; at offset 1.
    pub next_region: u8,
    /// Bytes at offsets 2 and 3.
    pub unknown1: [u8; 2],
    /// Bytes at offsets 4 to 7.
    pub unknown2: [u8; 4],
}

impl CapabilityDummy {
    /// The capability that the eight bytes of `image` spell.
    pub open spec fn parse(image: Seq<u8>) -> Self
        recommends
            image.len() == 8,
    {
        CapabilityDummy {
            id: image[0],
            next_region: image[1],
            unknown1: [image[2], image[3]],
            unknown2: [image[4], image[5], image[6], image[7]],
        }
    }

    fn to_image(&self) -> (out: Vec<u8>)
        ensures
            out@ == self.bytes(),
    {
        let mut out: Vec<u8> = Vec::new();
        out.push(self.id);
        out.push(self.next_region);
        assert(out@ =~= seq![self.id, self.next_region]);
        out.extend_from_slice(self.unknown1.as_slice());
        out.extend_from_slice(self.unknown2.as_slice());
        out
    }

    fn from_image(image: &[u8]) -> (out: Self)
        requires
            image@.len() == 8,
        ensures
            out == Self::parse(image@),
    {
        CapabilityDummy {
            id: image[0],
            next_region: image[1],
            unknown1: [image[2], image[3]],
            unknown2: [image[4], image[5], image[6], image[7]],
        }
    }
}

impl ReadWriteStruct for CapabilityDummy {
    open spec fn bytes(&self) -> Seq<u8> {
        seq![self.id, self.next_region] + self.unknown1@ + self.unknown2@
    }

    open spec fn with_bytes(&self, image: Seq<u8>) -> Self {
        Self::parse(image)
    }

    proof fn lemma_with_bytes(&self, image: Seq<u8>) {
        let own = self.bytes();
        assert(Self::parse(own).unknown1 =~= self.unknown1);
        assert(Self::parse(own).unknown2 =~= self.unknown2);
        if image.len() == 8 {
            assert(Self::parse(image).bytes() =~= image);
        }
    }

    fn read_bytes(&self, start: usize, count: usize) -> (out: Vec<u8>) {
        let image = self.to_image();
        copy_range(image.as_slice(), start, count)
    }

    fn write_bytes(&mut self, start: usize, bytes: &[u8]) {
        let mut image = self.to_image();
        overwrite(&mut image, start, bytes);
        *self = Self::from_image(image.as_slice());
    }

    open spec fn size_of_type() -> u8 {
        8
    }

    fn struct_size() -> (size: u8) {
        8
    }
}

/// The vendor-specific capability (identifier 0x09): nine bytes, kept as
/// written.
#[derive(Clone, Copy, Debug)]
pub struct Capability9 {
    /// Capability identifier, at offset 0.
    pub id: u8,
    /// Configuration-space offset of the next capability, or 0; at offset 1.
    pub next_region: u8,
    /// Bytes at offsets 2 and 3.
    pub unknown1: [u8; 2],
    /// Bytes at offsets 4 to 7.
    pub unknown2: [u8; 4],
    /// Byte at offset 8.
    pub unknown3: u8,
}

impl Capability9 {
    /// The capability that the nine bytes of `image` spell.
    pub open spec fn parse(image: Seq<u8>) -> Self
        recommends
            image.len() == 9,
    {
        Capability9 {
            id: image[0],
            next_region: image[1],
            unknown1: [image[2], image[3]],
            unknown2: [image[4], image[5], image[6], image[7]],
            unknown3: image[8],
        }
    }

    fn to_image(&self) -> (out: Vec<u8>)
        ensures
            out@ == self.bytes(),
    {
        let mut out: Vec<u8> = Vec::new();
        out.push(self.id);
        out.push(self.next_region);
        assert(out@ =~= seq![self.id, self.next_region]);
        out.extend_from_slice(self.unknown1.as_slice());
        out.extend_from_slice(self.unknown2.as_slice());
        out.push(self.unknown3);
        assert(out@ =~= self.bytes());
        out
    }

    fn from_image(image: &[u8]) -> (out: Self)
        requires
            image@.len() == 9,
        ensures
            out == Self::parse(image@),
    {
        Capability9 {
            id: image[0],
            next_region: image[1],
            unknown1: [image[2], image[3]],
            unknown2: [image[4], image[5], image[6], image[7]],
            unknown3: image[8],
        }
    }
}

impl ReadWriteStruct for Capability9 {
    open spec fn bytes(&self) -> Seq<u8> {
        seq![self.id, self.next_region] + self.unknown1@ + self.unknown2@ + seq![self.unknown3]
    }

    open spec fn with_bytes(&self, image: Seq<u8>) -> Self {
        Self::parse(image)
    }

    proof fn lemma_with_bytes(&self, image: Seq<u8>) {
        let own = self.bytes();
        assert(Self::parse(own).unknown1 =~= self.unknown1);
        assert(Self::parse(own).unknown2 =~= self.unknown2);
        if image.len() == 9 {
            assert(Self::parse(image).bytes() =~= image);
        }
    }

    fn read_bytes(&self, start: usize, count: usize) -> (out: Vec<u8>) {
        let image = self.to_image();
        copy_range(image.as_slice(), start, count)
    }

    fn write_bytes(&mut self, start: usize, bytes: &[u8]) {
        let mut image = self.to_image();
        overwrite(&mut image, start, bytes);
        *self = Self::from_image(image.as_slice());
    }

    open spec fn size_of_type() -> u8 {
        9
    }

    fn struct_size() -> (size: u8) {
        9
    }
}

/// A capability of any of the kinds that a device can carry.
#[derive(Clone, Copy, Debug)]
pub enum CapabilityEnum {
    /// MSI-X.
    CapabilityMsix(CapabilityMsix),
    /// MSI.
    CapabilityMsi(CapabilityMsi),
    /// PCI Express.
    CapabilityPcie(CapabilityPcie),
    /// Vendor-specific.
    Capability9(Capability9),
    /// Not interpreted.
    CapabilityDummy(CapabilityDummy),
}

impl CapabilityEnum {
    /// The length of the capability's byte image.
    pub fn payload_size(&self) -> (size: u8)
        ensures
            size == self.bytes().len(),
            0 < size <= 16,
    {
        match self {
            CapabilityEnum::CapabilityMsix(_) => CapabilityMsix::struct_size(),
            CapabilityEnum::CapabilityMsi(_) => CapabilityMsi::struct_size(),
            CapabilityEnum::CapabilityPcie(_) => CapabilityPcie::struct_size(),
            CapabilityEnum::Capability9(_) => Capability9::struct_size(),
            CapabilityEnum::CapabilityDummy(_) => CapabilityDummy::struct_size(),
        }
    }

    /// The capability's pointer to the next one: the byte at offset 1.
    pub fn next_region(&self) -> (next: u8)
        ensures
            next == self.bytes()[1],
    {
        match self {
            CapabilityEnum::CapabilityMsix(cap) => cap.next_region,
            CapabilityEnum::CapabilityMsi(cap) => cap.next_region,
            CapabilityEnum::CapabilityPcie(cap) => cap.next_region,
            CapabilityEnum::Capability9(cap) => cap.next_region,
            CapabilityEnum::CapabilityDummy(cap) => cap.next_region,
        }
    }
}

impl ReadWriteStruct for CapabilityEnum {
    open spec fn bytes(&self) -> Seq<u8> {
        match self {
            CapabilityEnum::CapabilityMsix(cap) => cap.bytes(),
            CapabilityEnum::CapabilityMsi(cap) => cap.bytes(),
            CapabilityEnum::CapabilityPcie(cap) => cap.bytes(),
            CapabilityEnum::Capability9(cap) => cap.bytes(),
            CapabilityEnum::CapabilityDummy(cap) => cap.bytes(),
        }
    }

    open spec fn with_bytes(&self, image: Seq<u8>) -> Self {
        match self {
            CapabilityEnum::CapabilityMsix(cap) => CapabilityEnum::CapabilityMsix(
                cap.with_bytes(image),
            ),
            CapabilityEnum::CapabilityMsi(cap) => CapabilityEnum::CapabilityMsi(
                cap.with_bytes(image),
            ),
            CapabilityEnum::CapabilityPcie(cap) => CapabilityEnum::CapabilityPcie(
                cap.with_bytes(image),
            ),
            CapabilityEnum::Capability9(cap) => CapabilityEnum::Capability9(cap.with_bytes(image)),
            CapabilityEnum::CapabilityDummy(cap) => CapabilityEnum::CapabilityDummy(
                cap.with_bytes(image),
            ),
        }
    }

    proof fn lemma_with_bytes(&self, image: Seq<u8>) {
        match self {
            CapabilityEnum::CapabilityMsix(cap) => cap.lemma_with_bytes(image),
            CapabilityEnum::CapabilityMsi(cap) => cap.lemma_with_bytes(image),
            CapabilityEnum::CapabilityPcie(cap) => cap.lemma_with_bytes(image),
            CapabilityEnum::Capability9(cap) => cap.lemma_with_bytes(image),
            CapabilityEnum::CapabilityDummy(cap) => cap.lemma_with_bytes(image),
        }
    }

    fn read_bytes(&self, start: usize, count: usize) -> (out: Vec<u8>) {
        match self {
            CapabilityEnum::CapabilityMsix(cap) => cap.read_bytes(start, count),
            CapabilityEnum::CapabilityMsi(cap) => cap.read_bytes(start, count),
            CapabilityEnum::CapabilityDummy(cap) => cap.read_bytes(start, count),
            CapabilityEnum::CapabilityPcie(cap) => cap.read_bytes(start, count),
            CapabilityEnum::Capability9(cap) => cap.read_bytes(start, count),
        }
    }

    fn write_bytes(&mut self, start: usize, bytes: &[u8]) {
        match self {
            CapabilityEnum::CapabilityMsix(cap) => cap.write_bytes(start, bytes),
            CapabilityEnum::CapabilityMsi(cap) => cap.write_bytes(start, bytes),
            CapabilityEnum::CapabilityDummy(cap) => cap.write_bytes(start, bytes),
            CapabilityEnum::CapabilityPcie(cap) => cap.write_bytes(start, bytes),
            CapabilityEnum::Capability9(cap) => cap.write_bytes(start, bytes),
        }
    }

    open spec fn size_of_type() -> u8 {
        0
    }

    fn struct_size() -> (size: u8) {
        0
    }
}

} // verus!
