//! The number of bits a machine integer needs.

use vstd::arithmetic::power2::{lemma2_to64, lemma_pow2_unfold, pow2};
use vstd::prelude::*;
use vstd::std_specs::bits::u64_leading_zeros;

verus! {

/// A count of bits.
pub type Bitwidth = usize;

/// The position of the highest set bit of `n`, counted from one; zero for zero.
pub open spec fn bit_length(n: nat) -> nat
    decreases n,
{
    if n == 0 {
        0
    } else {
        1 + bit_length(n / 2)
    }
}

/// `bit_length(n)` bits are enough to write `n`, and one bit fewer is not.
pub proof fn lemma_bit_length_bounds(n: nat)
    ensures
        n < pow2(bit_length(n)),
        n > 0 ==> pow2((bit_length(n) - 1) as nat) <= n,
    decreases n,
{
    if n == 0 {
        lemma2_to64();
    } else {
        lemma_bit_length_bounds(n / 2);
        lemma_pow2_unfold(bit_length(n));
        if n / 2 > 0 {
            lemma_pow2_unfold(bit_length(n / 2));
        } else {
            lemma2_to64();
        }
    }
}

/// Dropping the `k` lowest bits of a number that keeps a set bit above them
/// shortens it by exactly `k` bits.
proof fn lemma_bit_length_shift(n: nat, k: nat)
    requires
        n / pow2(k) > 0,
    ensures
        bit_length(n) == bit_length(n / pow2(k)) + k,
    decreases k,
{
    if k == 0 {
        lemma2_to64();
    } else {
        lemma_pow2_unfold(k);
        let p: nat = pow2((k - 1) as nat);
        vstd::arithmetic::power2::lemma_pow2_pos((k - 1) as nat);
        assert(n / (2 * p) == (n / 2) / p) by {
            vstd::arithmetic::div_mod::lemma_div_denominator(n as int, 2, p as int);
        }
        assert(pow2(k) == 2 * p);
        assert(n > 0) by {
            if n == 0 {
                vstd::arithmetic::div_mod::lemma_div_basics(pow2(k) as int);
            }
        }
        lemma_bit_length_shift(n / 2, (k - 1) as nat);
    }
}

/// The leading zeros of a 64-bit word and its bit length add up to 64.
proof fn lemma_leading_zeros_u64(x: u64)
    ensures
        64 - u64_leading_zeros(x) == bit_length(x as nat),
    decreases x,
{
    reveal(u64_leading_zeros);
    if x != 0 {
        lemma_leading_zeros_u64(x / 2);
    }
}

/// The minimal number of bits needed to represent `a`: the one-based position
/// of its highest set bit, and zero for zero.
pub fn bitwidth(a: u128) -> (r: Bitwidth)
    ensures
        r == bit_length(a as nat),
        a < pow2(r as nat),
        a > 0 ==> pow2((r - 1) as nat) <= a,
{
    let high: u64 = (a >> 64) as u64;
    let low: u64 = (a & 0xffff_ffff_ffff_ffff) as u64;
    proof {
        lemma2_to64();
        lemma_bit_length_bounds(a as nat);
        assert(a >> 64 == a / 0x1_0000_0000_0000_0000) by (bit_vector);
        assert(a >> 64 <= 0xffff_ffff_ffff_ffff) by (bit_vector);
        assert(a >> 64 == 0 ==> a & 0xffff_ffff_ffff_ffff == a) by (bit_vector);
        assert(a & 0xffff_ffff_ffff_ffff <= 0xffff_ffff_ffff_ffff) by (bit_vector);
        lemma_leading_zeros_u64(high);
        lemma_leading_zeros_u64(low);
        if high != 0 {
            lemma_bit_length_shift(a as nat, 64);
        }
    }
    if high != 0 {
        let zeros: u32 = high.leading_zeros();
        (128 - zeros) as usize
    } else {
        let zeros: u32 = low.leading_zeros();
        (64 - zeros) as usize
    }
}

} // verus!
