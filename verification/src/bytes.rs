//! Little-endian byte images of the integers that make up PCI structures.

use vstd::prelude::*;

verus! {

/// The two bytes of `x`, least significant first.
pub open spec fn u16_le(x: u16) -> Seq<u8> {
    seq![(x % 256) as u8, (x / 256) as u8]
}

/// The four bytes of `x`, least significant first.
pub open spec fn u32_le(x: u32) -> Seq<u8> {
    seq![
        (x % 256) as u8,
        ((x / 0x100) % 256) as u8,
        ((x / 0x1_0000) % 256) as u8,
        (x / 0x100_0000) as u8,
    ]
}

/// The integer whose little-endian image is the first two bytes of `s`.
pub open spec fn le_u16(s: Seq<u8>) -> u16
    recommends
        s.len() >= 2,
{
    (s[0] as int + s[1] as int * 256) as u16
}

/// The integer whose little-endian image is the first four bytes of `s`.
pub open spec fn le_u32(s: Seq<u8>) -> u32
    recommends
        s.len() >= 4,
{
    (s[0] as int + s[1] as int * 0x100 + s[2] as int * 0x1_0000 + s[3] as int * 0x100_0000) as u32
}

/// `s` with the bytes from `start` on replaced by those of `patch`.
pub open spec fn splice(s: Seq<u8>, start: int, patch: Seq<u8>) -> Seq<u8>
    recommends
        0 <= start,
        start + patch.len() <= s.len(),
{
    Seq::new(
        s.len(),
        |i: int|
            if start <= i < start + patch.len() {
                patch[i - start]
            } else {
                s[i]
            },
    )
}

/// Reading back the image of a 16-bit integer gives the integer.
pub proof fn lemma_u16_round_trip(x: u16)
    ensures
        u16_le(x).len() == 2,
        le_u16(u16_le(x)) == x,
{
}

/// Reading back the image of a 32-bit integer gives the integer.
pub proof fn lemma_u32_round_trip(x: u32)
    ensures
        u32_le(x).len() == 4,
        le_u32(u32_le(x)) == x,
{
    let q1 = x / 0x100;
    let q2 = x / 0x1_0000;
    let q3 = x / 0x100_0000;
    assert(x == x % 256 + q1 * 0x100);
    assert(q1 == q1 % 256 + q2 * 0x100);
    assert(q2 == q2 % 256 + q3 * 0x100);
}

/// Two bytes are the image of the integer they spell.
pub proof fn lemma_le_u16_image(s: Seq<u8>)
    requires
        s.len() == 2,
    ensures
        u16_le(le_u16(s)) =~= s,
{
}

/// Four bytes are the image of the integer they spell.
pub proof fn lemma_le_u32_image(s: Seq<u8>)
    requires
        s.len() == 4,
    ensures
        u32_le(le_u32(s)) =~= s,
{
    let b0 = s[0] as int;
    let b1 = s[1] as int;
    let b2 = s[2] as int;
    let b3 = s[3] as int;
    let x = b0 + b1 * 0x100 + b2 * 0x1_0000 + b3 * 0x100_0000;
    assert(le_u32(s) == x);
    assert(x % 256 == b0 && x / 0x100 == b1 + b2 * 0x100 + b3 * 0x1_0000);
    assert((x / 0x100) % 256 == b1);
    assert(x / 0x1_0000 == b2 + b3 * 0x100);
    assert((x / 0x1_0000) % 256 == b2);
    assert(x / 0x100_0000 == b3);
}

/// The image of `x` as a vector of two bytes.
pub fn u16_to_le(x: u16) -> (out: Vec<u8>)
    ensures
        out@ == u16_le(x),
{
    let mut out: Vec<u8> = Vec::new();
    out.push((x % 256) as u8);
    out.push((x / 256) as u8);
    assert(out@ =~= u16_le(x));
    out
}

/// The image of `x` as a vector of four bytes.
pub fn u32_to_le(x: u32) -> (out: Vec<u8>)
    ensures
        out@ == u32_le(x),
{
    let mut out: Vec<u8> = Vec::new();
    out.push((x % 256) as u8);
    out.push(((x / 0x100) % 256) as u8);
    out.push(((x / 0x1_0000) % 256) as u8);
    out.push((x / 0x100_0000) as u8);
    assert(out@ =~= u32_le(x));
    out
}

/// The 16-bit integer spelled by the two bytes of `s` that start at `at`.
pub fn u16_from_le(s: &[u8], at: usize) -> (x: u16)
    requires
        at + 2 <= s@.len(),
    ensures
        x == le_u16(s@.subrange(at as int, at + 2)),
{
    let lo: u16 = s[at] as u16;
    let hi: u16 = s[at + 1] as u16;
    lo + hi * 256
}

/// The 32-bit integer spelled by the four bytes of `s` that start at `at`.
pub fn u32_from_le(s: &[u8], at: usize) -> (x: u32)
    requires
        at + 4 <= s@.len(),
    ensures
        x == le_u32(s@.subrange(at as int, at + 4)),
{
    let b0: u32 = s[at] as u32;
    let b1: u32 = s[at + 1] as u32;
    let b2: u32 = s[at + 2] as u32;
    let b3: u32 = s[at + 3] as u32;
    b0 + b1 * 0x100 + b2 * 0x1_0000 + b3 * 0x100_0000
}

/// A copy of the `count` bytes of `s` that start at `start`.
pub fn copy_range(s: &[u8], start: usize, count: usize) -> (out: Vec<u8>)
    requires
        start + count <= s@.len(),
    ensures
        out@ == s@.subrange(start as int, start + count),
{
    let len: usize = s.len();
    let mut out: Vec<u8> = Vec::new();
    let mut i: usize = 0;
    while i < count
        invariant
            i <= count,
            start + count <= len,
            len == s@.len(),
            out@ == s@.subrange(start as int, start + i),
        decreases count - i,
    {
        out.push(s[start + i]);
        i += 1;
        assert(out@ =~= s@.subrange(start as int, start + i));
    }
    out
}

/// Writes `patch` over the bytes of `v` that start at `start`.
pub fn overwrite(v: &mut Vec<u8>, start: usize, patch: &[u8])
    requires
        start + patch@.len() <= old(v)@.len(),
    ensures
        final(v)@ == splice(old(v)@, start as int, patch@),
{
    let len: usize = v.len();
    let mut i: usize = 0;
    while i < patch.len()
        invariant
            i <= patch@.len(),
            start + patch@.len() <= len,
            len == v@.len(),
            v@.len() == old(v)@.len(),
            v@ == splice(old(v)@, start as int, patch@.subrange(0, i as int)),
        decreases patch@.len() - i,
    {
        v.set(start + i, patch[i]);
        i += 1;
        assert(v@ =~= splice(old(v)@, start as int, patch@.subrange(0, i as int)));
    }
    assert(patch@.subrange(0, i as int) =~= patch@);
}

/// The little-endian integer that `size` bytes of `s` spell from `at` on,
/// for an access of 1, 2 or 4 bytes.
pub open spec fn value_at(s: Seq<u8>, at: int, size: u8) -> u32
    recommends
        size == 1 || size == 2 || size == 4,
        0 <= at,
        at + size <= s.len(),
{
    if size == 1 {
        s[at] as u32
    } else if size == 2 {
        le_u16(s.subrange(at, at + 2)) as u32
    } else {
        le_u32(s.subrange(at, at + 4))
    }
}

/// The low `size` bytes of `value`: what an access of 1, 2 or 4 bytes
/// transfers of it.
pub open spec fn low_bytes(value: u32, size: u8) -> u32
    recommends
        size == 1 || size == 2 || size == 4,
{
    if size == 1 {
        (value % 0x100) as u32
    } else if size == 2 {
        (value % 0x1_0000) as u32
    } else {
        value
    }
}

/// The image of the low `size` bytes of `value`, for an access of 1, 2 or
/// 4 bytes.
pub open spec fn value_image(value: u32, size: u8) -> Seq<u8>
    recommends
        size == 1 || size == 2 || size == 4,
{
    if size == 1 {
        seq![(value % 0x100) as u8]
    } else if size == 2 {
        u16_le((value % 0x1_0000) as u16)
    } else {
        u32_le(value)
    }
}

/// What is read where an image was written is the low bytes of the value.
pub proof fn lemma_value_round_trip(s: Seq<u8>, at: int, size: u8, value: u32)
    requires
        size == 1 || size == 2 || size == 4,
        0 <= at,
        at + size <= s.len(),
    ensures
        value_image(value, size).len() == size,
        splice(s, at, value_image(value, size)).len() == s.len(),
        value_at(splice(s, at, value_image(value, size)), at, size) == low_bytes(value, size),
{
    let image = value_image(value, size);
    let t = splice(s, at, image);
    assert(t.subrange(at, at + size) =~= image);
    if size == 2 {
        lemma_u16_round_trip((value % 0x1_0000) as u16);
    } else if size == 4 {
        lemma_u32_round_trip(value);
    }
}

} // verus!
