//! Extraction of unsigned bit fields from a little-endian machine word.

use vstd::arithmetic::power2::{lemma_pow2_pos, pow2};
use vstd::bits::{
    lemma_u64_low_bits_mask_is_mod, lemma_u64_pow2_no_overflow, lemma_u64_shl_is_mul,
    lemma_u64_shr_is_div,
};
use vstd::prelude::*;

verus! {

/// The unsigned integer formed by the `len` bits of `val` that begin at bit
/// `start`, bit 0 being the least significant one.
pub open spec fn bit_field(val: u64, start: nat, len: nat) -> nat {
    (val as nat / pow2(start)) % pow2(len)
}

/// A field of `len` bits is below `2^len`, and a field never exceeds the word
/// it is taken from.
pub proof fn lemma_bit_field_bound(val: u64, start: nat, len: nat)
    ensures
        bit_field(val, start, len) < pow2(len),
        bit_field(val, start, len) <= val,
{
    lemma_pow2_pos(start);
    lemma_pow2_pos(len);
    let shifted = val as nat / pow2(start);
    assert(shifted <= val) by {
        vstd::arithmetic::div_mod::lemma_div_is_ordered_by_denominator(val as int, 1, pow2(start) as int);
    }
    assert(shifted % pow2(len) <= shifted) by {
        vstd::arithmetic::div_mod::lemma_mod_decreases(shifted, pow2(len));
    }
    vstd::arithmetic::div_mod::lemma_mod_bound(shifted as int, pow2(len) as int);
}

/// Extracts the `len` bits of `val` that begin at bit `start`.
pub fn bits(val: u64, start: u64, len: u64) -> (r: u64)
    requires
        start + len <= 64,
    ensures
        r == bit_field(val, start as nat, len as nat),
{
    if len == 0 {
        proof {
            vstd::arithmetic::power2::lemma2_to64();
        }
        return 0;
    }
    let shifted: u64 = val >> start;
    proof {
        lemma_u64_shr_is_div(val, start);
    }
    if len == 64 {
        proof {
            vstd::arithmetic::power2::lemma2_to64_rest();
            vstd::arithmetic::div_mod::lemma_small_mod(shifted as nat, pow2(64));
        }
        shifted
    } else {
        proof {
            lemma_u64_pow2_no_overflow(len as nat);
            lemma_u64_shl_is_mul(1, len);
            lemma_pow2_pos(len as nat);
            lemma_u64_low_bits_mask_is_mod(shifted, len as nat);
        }
        let mask: u64 = (1u64 << len) - 1;
        shifted & mask
    }
}

} // verus!
