use vstd::prelude::*;
use vstd::arithmetic::power2::{pow2, lemma2_to64, lemma2_to64_rest};

verus! {

/// The signed value of a `width`-bit two's-complement pattern `value`.
pub open spec fn sign_extend(value: int, width: nat) -> int {
    if width > 0 && value >= pow2((width - 1) as nat) {
        value - pow2(width)
    } else {
        value
    }
}

/// Reads `value` as a two's-complement number of `bit_length` bits.
pub fn get_twos_complement(value: u32, bit_length: i32) -> (r: i32)
    requires
        1 <= bit_length <= 32,
        value < pow2(bit_length as nat),
    ensures
        r == sign_extend(value as int, bit_length as nat),
        -pow2((bit_length - 1) as nat) <= r < pow2((bit_length - 1) as nat),
{
    proof {
        lemma2_to64();
        lemma2_to64_rest();
    }
    let w: u64 = bit_length as u64;
    let modulus: u64 = 1u64 << w;
    let half: u64 = 1u64 << (w - 1);
    proof {
        vstd::bits::lemma_u64_shl_is_mul(1, w);
        vstd::bits::lemma_u64_shl_is_mul(1, (w - 1) as u64);
        vstd::arithmetic::power2::lemma_pow2_adds((w - 1) as nat, 1);
    }
    let v: u64 = value as u64;
    if v >= half {
        (v as i64 - modulus as i64) as i32
    } else {
        v as i32
    }
}

} // verus!
