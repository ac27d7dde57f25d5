//! Bit-field extraction and small bit helpers.
use core::ops::RangeInclusive;
use vstd::arithmetic::power2::{pow2, lemma_pow2_pos, lemma2_to64};
use vstd::bits::*;
use vstd::prelude::*;

use crate::range_ops::{range_end, range_start};

verus! {

/// The bits `lo..=hi` of `word`, read as an unsigned number.
pub open spec fn bit_field(word: u32, lo: nat, hi: nat) -> nat {
    (word as nat % pow2(hi + 1)) / pow2(lo)
}

/// Returns the bits `range.start()..=range.end()` of `word`, shifted down to bit 0.
pub fn extract_bits(word: u32, range: RangeInclusive<u32>) -> (r: u32)
    requires
        range@.end <= 31,
        range@.start <= range@.end,
    ensures
        r as nat == bit_field(word, range@.start as nat, range@.end as nat),
{
    let start = range_start(&range);
    let end = range_end(&range);
    proof {
        lemma_pow2_pos(start as nat);
        lemma_u32_shr_is_div(word, start);
    }
    if end == 31 {
        proof {
            lemma2_to64();
            assert(word as nat % pow2(32) == word as nat);
        }
        word >> start
    } else {
        let top: u32 = end + 1;
        proof {
            lemma_u32_pow2_no_overflow(top as nat);
            lemma_u32_shl_is_mul(1, top);
        }
        let mask: u32 = (1u32 << top) - 1;
        let masked: u32 = word & mask;
        proof {
            assert(low_bits_mask(top as nat) as u32 == mask);
            lemma_u32_low_bits_mask_is_mod(word, top as nat);
            lemma_u32_shr_is_div(masked, start);
        }
        masked >> start
    }
}

/// A field of `hi - lo + 1` bits holds less than `2^(hi - lo + 1)`.
pub proof fn lemma_bit_field_bound(word: u32, lo: nat, hi: nat)
    requires
        lo <= hi <= 31,
    ensures
        bit_field(word, lo, hi) < pow2((hi - lo + 1) as nat),
{
    let m = pow2(hi + 1);
    lemma_pow2_pos(hi + 1);
    lemma_pow2_pos(lo);
    vstd::arithmetic::power2::lemma_pow2_adds(lo, (hi - lo + 1) as nat);
    let r = word as nat % m;
    assert(r < m);
    vstd::arithmetic::div_mod::lemma_div_is_ordered_by_denominator(r as int, pow2(lo) as int, pow2(lo) as int);
    assert(r / pow2(lo) < pow2((hi - lo + 1) as nat)) by (nonlinear_arith)
        requires
            r < m,
            m == pow2(lo) * pow2((hi - lo + 1) as nat),
            pow2(lo) > 0,
    ;
}

} // verus!
