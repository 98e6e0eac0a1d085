//! Opaque observation values.
//!
//! The core never computes with observation values or check thresholds; it
//! only routes them between connectors and the numeric kernels. They are
//! therefore carried as raw IEEE-754 binary64 bit patterns, which keeps the
//! routing logic exact while leaving all numerics to the kernels.

use vstd::arithmetic::power2::{lemma2_to64, lemma_pow2_adds, pow2};
use vstd::bits::lemma_u64_shl_is_mul;
use vstd::prelude::*;

verus! {

/// A 64-bit IEEE-754 number carried opaquely as its bit pattern.
///
/// The embedding shell converts between this and the machine's native
/// number type at the kernel boundary; inside the core a `Real` is only
/// stored, moved and compared bit-for-bit.
#[derive(Debug, Clone, Copy, PartialEq, Eq, Structural)]
pub struct Real {
    /// The raw IEEE-754 binary64 bit pattern.
    pub bits: u64,
}

impl Real {
    /// The bit pattern of positive zero.
    pub fn zero() -> (r: Real)
        ensures
            r.bits == 0,
    {
        Real { bits: 0 }
    }

    /// Wraps a raw bit pattern.
    pub fn from_bits(bits: u64) -> (r: Real)
        ensures
            r.bits == bits,
    {
        Real { bits }
    }
}

/// Position of the highest set bit, with `spec_msb(0) == 0`.
pub open spec fn spec_msb(n: u64) -> u64
    decreases n,
{
    if n <= 1 {
        0
    } else {
        (1 + spec_msb(n / 2)) as u64
    }
}

/// The IEEE-754 binary64 bit pattern of a non-negative integer below 2^52:
/// zero encodes as all zeros; otherwise, with `e` the position of the
/// highest set bit, the biased exponent is `1023 + e` and the bits of `n`
/// below the highest one fill the top of the 52-bit mantissa field.
pub open spec fn spec_real_bits_of_int(n: u64) -> u64 {
    if n == 0 {
        0
    } else {
        let e = spec_msb(n);
        (((1023 + e) as u64) << 52u64) | (((n - (1u64 << e)) as u64) << ((52 - e) as u64))
    }
}

proof fn lemma_msb_bounded(n: u64, k: nat)
    requires
        n < pow2(k),
        k >= 1,
    ensures
        spec_msb(n) < k,
    decreases k,
{
    if n <= 1 {
    } else {
        lemma_pow2_adds(1, (k - 1) as nat);
        lemma2_to64();
        lemma_msb_bounded(n / 2, (k - 1) as nat);
    }
}

proof fn lemma_msb_lower(n: u64)
    requires
        n >= 1,
    ensures
        n >= pow2(spec_msb(n) as nat),
    decreases n,
{
    if n <= 1 {
        lemma2_to64();
    } else {
        lemma_msb_lower(n / 2);
        lemma_pow2_adds(1, spec_msb(n / 2) as nat);
        lemma2_to64();
        lemma_msb_bounded(n / 2, 64);
        assert(n >= 2 * (n / 2));
        assert(pow2((1 + spec_msb(n / 2)) as nat) == 2 * pow2(spec_msb(n / 2) as nat));
    }
}

fn msb(n: u64) -> (r: u64)
    ensures
        r == spec_msb(n),
    decreases n,
{
    if n <= 1 {
        0
    } else {
        proof {
            lemma2_to64();
            vstd::arithmetic::power2::lemma2_to64_rest();
            lemma_msb_bounded(n / 2, 64);
        }
        1 + msb(n / 2)
    }
}

/// Encodes a non-negative integer below 2^52 (all of which binary64
/// represents without rounding) as a `Real`.
pub fn real_from_int(n: u64) -> (r: Real)
    requires
        n < 0x10000000000000,
    ensures
        r.bits == spec_real_bits_of_int(n),
{
    if n == 0 {
        return Real { bits: 0 };
    }
    let e = msb(n);
    proof {
        lemma2_to64();
        vstd::arithmetic::power2::lemma2_to64_rest();
        lemma_msb_bounded(n, 52);
        lemma_msb_lower(n);
        lemma_u64_shl_is_mul(1u64, e);
    }
    let top: u64 = 1u64 << e;
    let bits: u64 = ((1023 + e) << 52) | ((n - top) << (52 - e));
    Real { bits }
}

} // verus!
