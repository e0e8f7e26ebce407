//! Address alignment helpers shared by the memory subsystems.
use vstd::arithmetic::power2::pow2;
use vstd::bits::low_bits_mask;
use vstd::prelude::*;

verus! {

/// `a` is a power of two that fits in 64 bits.
pub open spec fn is_pow2(a: int) -> bool {
    exists|n: nat| n < 64 && a == pow2(n)
}

/// Clearing the bits below a power of two `a` rounds down to a multiple of `a`.
pub proof fn lemma_mask_rounds_down(x: u64, a: u64)
    requires
        is_pow2(a as int),
    ensures
        a > 0,
        x & !((a - 1) as u64) == x - x % a,
{
    let n = choose|n: nat| n < 64 && a as int == pow2(n);
    vstd::arithmetic::power2::lemma_pow2_pos(n);
    vstd::bits::lemma_u64_pow2_no_overflow(n);
    vstd::bits::lemma_u64_low_bits_mask_is_mod(x, n);
    let m = (a - 1) as u64;
    assert(m == low_bits_mask(n) as u64);
    assert(x & !m == x - (x & m)) by (bit_vector);
}

/// Rounds `address` down to a multiple of the power of two `align_to`.
pub fn align_down(address: u64, align_to: u64) -> (r: u64)
    requires
        is_pow2(align_to as int),
    ensures
        r == address - address % align_to,
{
    proof {
        lemma_mask_rounds_down(address, align_to);
    }
    address & !(align_to - 1)
}

/// Whether `address` is a multiple of the power of two `align`.
pub fn is_aligned(address: u64, align: u64) -> (r: bool)
    requires
        is_pow2(align as int),
    ensures
        r == (address % align == 0),
{
    align_down(address, align) == address
}

/// Rounds `addr` up to a multiple of the power of two `align`.
pub fn align_up(addr: usize, align: usize) -> (r: usize)
    requires
        is_pow2(align as int),
        addr + align - 1 <= usize::MAX,
    ensures
        r % align == 0,
        addr <= r < addr + align,
{
    proof {
        lemma_mask_rounds_down(0, align as u64);
    }
    let s: usize = addr + (align - 1);
    let r = align_down(s as u64, align as u64);
    proof {
        vstd::arithmetic::div_mod::lemma_fundamental_div_mod(s as int, align as int);
        vstd::arithmetic::div_mod::lemma_mod_multiples_basic(s as int / align as int, align as int);
    }
    r as usize
}

} // verus!
