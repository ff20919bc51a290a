//! Alignment of addresses to powers of two.

use vstd::prelude::*;
use vstd::arithmetic::power2::{lemma2_to64, lemma_pow2_pos, pow2};
use vstd::bits::{lemma_usize_low_bits_mask_is_mod, lemma_usize_pow2_no_overflow, low_bits_mask};

verus! {

/// The size of a 4K page (4096 bytes).
pub const PAGE_SIZE_4K: usize = 0x1000;

/// Whether `align` is a power of two.
pub open spec fn is_power_of_two(align: usize) -> bool {
    exists|n: nat| n < usize::BITS && align == #[trigger] pow2(n)
}

/// `addr` rounded down to a multiple of `align`.
pub open spec fn aligned_down(addr: usize, align: usize) -> int
    recommends
        align > 0,
{
    addr - addr % align
}

/// `addr` rounded up to a multiple of `align`.
pub open spec fn aligned_up(addr: usize, align: usize) -> int
    recommends
        align > 0,
{
    if addr % align == 0 {
        addr as int
    } else {
        addr - addr % align + align
    }
}

/// Clearing the bits below a power of two rounds down to a multiple of
/// it, and keeping only those bits takes the remainder.
pub proof fn lemma_mask_is_remainder(addr: usize, align: usize)
    requires
        is_power_of_two(align),
    ensures
        align > 0,
        addr & ((align - 1) as usize) == addr % align,
        addr & !((align - 1) as usize) == addr - addr % align,
{
    let n = choose|n: nat| n < usize::BITS && align == #[trigger] pow2(n);
    lemma_pow2_pos(n);
    lemma_usize_pow2_no_overflow(n);
    lemma_usize_low_bits_mask_is_mod(addr, n);
    let mask = (align - 1) as usize;
    assert(mask == low_bits_mask(n) as usize);
    assert(addr & !mask == addr - (addr & mask)) by (bit_vector);
}

/// Align address downwards.
///
/// Returns the greatest `x` with alignment `align` so that `x <= addr`.
///
/// The alignment must be a power of two.
pub fn align_down(addr: usize, align: usize) -> (aligned: usize)
    requires
        is_power_of_two(align),
    ensures
        aligned == aligned_down(addr, align),
{
    proof {
        lemma_mask_is_remainder(addr, align);
    }
    addr & !(align - 1)
}

/// Align address upwards.
///
/// Returns the smallest `x` with alignment `align` so that `x >= addr`.
///
/// The alignment must be a power of two, and the result must be an address.
pub fn align_up(addr: usize, align: usize) -> (aligned: usize)
    requires
        is_power_of_two(align),
        addr + align - 1 <= usize::MAX,
    ensures
        aligned == aligned_up(addr, align),
{
    proof {
        lemma_mask_is_remainder(addr, align);
    }
    let top: usize = addr + (align - 1);
    proof {
        lemma_mask_is_remainder(top, align);
        lemma_round_up(addr, align);
    }
    top & !(align - 1)
}

/// Rounding `addr + align - 1` down rounds `addr` up.
pub proof fn lemma_round_up(addr: usize, align: usize)
    requires
        align > 0,
        addr + align - 1 <= usize::MAX,
    ensures
        (addr + align - 1) - (addr + align - 1) % (align as int) == aligned_up(addr, align),
{
    let a = align as int;
    let q = addr as int / a;
    let r = addr as int % a;
    assert(addr == q * a + r) by (nonlinear_arith)
        requires
            a > 0,
            q == addr as int / a,
            r == addr as int % a,
    ;
    if r == 0 {
        assert((q * a + (a - 1)) % a == a - 1) by (nonlinear_arith)
            requires
                a > 0,
        ;
    } else {
        assert(((q + 1) * a + (r - 1)) % a == r - 1) by (nonlinear_arith)
            requires
                a > 0,
                0 < r < a,
        ;
        assert((q + 1) * a + (r - 1) == q * a + r + a - 1) by (nonlinear_arith);
    }
}

/// Returns the offset of the address within the alignment.
///
/// Equivalent to `addr % align`, but the alignment must be a power of two.
pub fn align_offset(addr: usize, align: usize) -> (offset: usize)
    requires
        is_power_of_two(align),
    ensures
        offset == addr % align,
{
    proof {
        lemma_mask_is_remainder(addr, align);
    }
    addr & (align - 1)
}

/// Checks whether the address has the demanded alignment.
///
/// Equivalent to `addr % align == 0`, but the alignment must be a power of
/// two.
pub fn is_aligned(addr: usize, align: usize) -> (aligned: bool)
    requires
        is_power_of_two(align),
    ensures
        aligned == (addr % align == 0),
{
    align_offset(addr, align) == 0
}

/// 4096 is a power of two.
pub proof fn lemma_page_size_is_power_of_two()
    ensures
        is_power_of_two(PAGE_SIZE_4K),
{
    lemma2_to64();
    assert(PAGE_SIZE_4K == pow2(12));
}

/// Align address downwards to 4096 (bytes).
pub fn align_down_4k(addr: usize) -> (aligned: usize)
    ensures
        aligned == aligned_down(addr, PAGE_SIZE_4K),
{
    proof {
        lemma_page_size_is_power_of_two();
    }
    align_down(addr, PAGE_SIZE_4K)
}

/// Align address upwards to 4096 (bytes). The result must be an address.
pub fn align_up_4k(addr: usize) -> (aligned: usize)
    requires
        addr + PAGE_SIZE_4K - 1 <= usize::MAX,
    ensures
        aligned == aligned_up(addr, PAGE_SIZE_4K),
{
    proof {
        lemma_page_size_is_power_of_two();
    }
    align_up(addr, PAGE_SIZE_4K)
}

/// Returns the offset of the address within a 4K-sized page.
pub fn align_offset_4k(addr: usize) -> (offset: usize)
    ensures
        offset == addr % PAGE_SIZE_4K,
{
    proof {
        lemma_page_size_is_power_of_two();
    }
    align_offset(addr, PAGE_SIZE_4K)
}

/// Checks whether the address is 4K-aligned.
pub fn is_aligned_4k(addr: usize) -> (aligned: bool)
    ensures
        aligned == (addr % PAGE_SIZE_4K == 0),
{
    proof {
        lemma_page_size_is_power_of_two();
    }
    is_aligned(addr, PAGE_SIZE_4K)
}

} // verus!
