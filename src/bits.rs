//! Bit fields of an instruction word and two's-complement sign extension.
use vstd::arithmetic::power2::{lemma2_to64, pow2};
use vstd::bits::{
    lemma_u32_low_bits_mask_is_mod, lemma_u32_shl_is_mul, lemma_u32_shr_is_div, low_bits_mask,
};
use vstd::prelude::*;

verus! {

/// Bits `hi` down to `lo` of `w` (both inclusive, bit 0 the least significant), read as an
/// unsigned number.
pub open spec fn bits(w: u32, hi: nat, lo: nat) -> nat
    recommends
        lo <= hi < 32,
{
    (w as nat / pow2(lo)) % pow2((hi + 1 - lo) as nat)
}

/// The value of the `width`-bit two's-complement pattern `u`: its top bit counts negatively.
pub open spec fn signed(u: nat, width: nat) -> int
    recommends
        1 <= width,
        u < pow2(width),
{
    if u < pow2((width - 1) as nat) {
        u as int
    } else {
        u - pow2(width)
    }
}

/// Extracts bits `hi` down to `lo` of `w`.
pub fn field(w: u32, hi: u32, lo: u32) -> (r: u32)
    requires
        lo <= hi < 32,
        hi - lo < 31,
    ensures
        r == bits(w, hi as nat, lo as nat),
        r < pow2((hi + 1 - lo) as nat),
{
    let width: u32 = hi + 1 - lo;
    proof {
        lemma_u32_shr_is_div(w, lo);
        vstd::bits::lemma_u32_pow2_no_overflow(width as nat);
        lemma_u32_shl_is_mul(1, width);
        lemma_u32_low_bits_mask_is_mod(w >> lo, width as nat);
    }
    let mask: u32 = (1u32 << width) - 1;
    assert(mask == low_bits_mask(width as nat));
    let r = (w >> lo) & mask;
    proof {
        vstd::arithmetic::div_mod::lemma_mod_bound((w >> lo) as int, pow2(width as nat) as int);
    }
    r
}

/// Sign-extends the `width`-bit pattern `u` to a 32-bit signed integer.
pub fn sign_extend(u: u32, width: u32) -> (r: i32)
    requires
        1 <= width <= 30,
        u < pow2(width as nat),
    ensures
        r == signed(u as nat, width as nat),
{
    proof {
        vstd::bits::lemma_u32_pow2_no_overflow(width as nat);
        vstd::bits::lemma_u32_pow2_no_overflow((width - 1) as nat);
        lemma_u32_shl_is_mul(1, width);
        lemma_u32_shl_is_mul(1, (width - 1) as u32);
        vstd::arithmetic::power2::lemma_pow2_unfold(width as nat);
        if width < 30 {
            vstd::arithmetic::power2::lemma_pow2_strictly_increases(width as nat, 30);
        }
        lemma2_to64();
    }
    let half: u32 = 1u32 << (width - 1);
    let full: u32 = 1u32 << width;
    if u < half {
        u as i32
    } else {
        (u as i32) - (full as i32)
    }
}

} // verus!
