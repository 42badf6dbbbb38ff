//! Extraction of bit fields from packed integers, stated arithmetically.
use vstd::prelude::*;
use vstd::arithmetic::power2::pow2;
use vstd::bits::low_bits_mask;

verus! {

/// The `width`-bit field of `raw` that starts at bit `offset` (bit 0 is the least
/// significant one).
pub open spec fn bit_field(raw: nat, offset: nat, width: nat) -> nat {
    (raw / pow2(offset)) % pow2(width)
}

/// Whether bit `index` of `raw` is set.
pub open spec fn bit_set(raw: nat, index: nat) -> bool {
    bit_field(raw, index, 1) == 1
}

/// Reads the `width`-bit field of `raw` that starts at bit `offset`.
pub fn field_u32(raw: u32, offset: u32, width: u32) -> (r: u32)
    requires
        offset < 32,
        width < 32,
    ensures
        r == bit_field(raw as nat, offset as nat, width as nat),
        r < pow2(width as nat),
{
    let shifted = raw >> offset;
    proof {
        vstd::bits::lemma_u32_shr_is_div(raw, offset);
        vstd::bits::lemma_u32_pow2_no_overflow(width as nat);
        vstd::bits::lemma_u32_shl_is_mul(1u32, width);
    }
    let mask = (1u32 << width) - 1;
    proof {
        assert(mask == low_bits_mask(width as nat));
        vstd::bits::lemma_u32_low_bits_mask_is_mod(shifted, width as nat);
        vstd::arithmetic::power2::lemma_pow2_pos(width as nat);
        vstd::arithmetic::div_mod::lemma_mod_bound(shifted as int, pow2(width as nat) as int);
    }
    shifted & mask
}

/// Whether bit `index` of `raw` is set.
pub fn bit_u32(raw: u32, index: u32) -> (b: bool)
    requires
        index < 32,
    ensures
        b == bit_set(raw as nat, index as nat),
{
    proof {
        vstd::arithmetic::power2::lemma2_to64();
    }
    field_u32(raw, index, 1) == 1
}

} // verus!
