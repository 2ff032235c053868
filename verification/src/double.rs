//! Double-precision values modeled by their IEEE-754 bit pattern.
//!
//! The codec never does floating-point arithmetic; it only moves a double's
//! 64 bits between a document field and an application value. One conversion
//! matters: the remote store echoes a double with an integral value back as
//! an integer field, so decoding must rebuild the exact bit pattern of that
//! integer's double. For the magnitudes involved (i32) that pattern is pure
//! integer arithmetic over exponent and mantissa, stated by
//! [`double_bits_of_int`] and computed by [`double_bits_from_i32`].

use vstd::arithmetic::power2::{
    lemma2_to64, lemma_pow2_adds, lemma_pow2_pos, lemma_pow2_strictly_increases, pow2,
};
use vstd::prelude::*;

verus! {

/// A double carried as its IEEE-754 bit pattern.
#[derive(Clone, Copy, Debug, PartialEq, Eq, Structural)]
pub struct DoubleBits {
    pub bits: u64,
}

/// Position of the highest set bit: `pow2(msb(n)) <= n < pow2(msb(n) + 1)`
/// for `n >= 1`.
pub open spec fn msb(n: nat) -> nat
    decreases n,
{
    if n < 2 {
        0
    } else {
        1 + msb(n / 2)
    }
}

proof fn lemma_msb_bounds(n: nat)
    requires
        n >= 1,
    ensures
        pow2(msb(n)) <= n < pow2(msb(n) + 1),
    decreases n,
{
    if n < 2 {
        lemma2_to64();
    } else {
        lemma_msb_bounds(n / 2);
        let m = msb(n / 2);
        lemma_pow2_adds(m, 1);
        lemma_pow2_adds(m + 1, 1);
        lemma2_to64();
        assert(pow2(m + 1) == pow2(m) * 2);
        assert(pow2(m + 2) == pow2(m + 1) * 2);
        assert(n >= 2 * (n / 2));
        assert(n <= 2 * (n / 2) + 1);
    }
}

proof fn lemma_msb_monotone_bound(n: nat, e: nat)
    requires
        1 <= n,
        n < pow2(e + 1),
    ensures
        msb(n) <= e,
{
    if msb(n) > e {
        lemma_msb_bounds(n);
        if e + 1 < msb(n) {
            lemma_pow2_strictly_increases(e + 1, msb(n));
        }
        assert(pow2(e + 1) <= pow2(msb(n)));
    }
}

/// The IEEE-754 double bit pattern of a non-negative integer below `pow2(53)`:
/// zero is all zeroes; otherwise a biased exponent of `1023 + msb(n)` and the
/// bits of `n` below its leading one, left-aligned in the 52-bit mantissa.
pub open spec fn double_bits_of_nat(n: nat) -> nat
    recommends
        n < pow2(53),
{
    if n == 0 {
        0
    } else {
        (1023 + msb(n)) * pow2(52) + ((n - pow2(msb(n))) * pow2((52 - msb(n)) as nat)) as nat
    }
}

/// The IEEE-754 double bit pattern of an integer with `|i| < pow2(53)`:
/// negatives carry the sign bit.
pub open spec fn double_bits_of_int(i: int) -> nat
    recommends
        -pow2(53) < i < pow2(53),
{
    if i >= 0 {
        double_bits_of_nat(i as nat)
    } else {
        pow2(63) + double_bits_of_nat((-i) as nat)
    }
}

fn pow2_u64(e: u64) -> (r: u64)
    requires
        e < 64,
    ensures
        r as nat == pow2(e as nat),
{
    let mut r: u64 = 1;
    let mut i: u64 = 0;
    proof {
        lemma2_to64();
    }
    while i < e
        invariant
            0 <= i <= e < 64,
            r as nat == pow2(i as nat),
        decreases e - i,
    {
        proof {
            lemma_pow2_adds(i as nat, 1);
            lemma2_to64();
            if i + 1 < 64 {
                lemma_pow2_strictly_increases((i + 1) as nat, 64);
            }
        }
        r = r * 2;
        i = i + 1;
    }
    r
}

/// Computes the double bit pattern of an `i32`, the conversion the codec
/// needs when the store has collapsed an integral double into an integer
/// field.
pub fn double_bits_from_i32(v: i32) -> (r: DoubleBits)
    ensures
        r.bits as nat == double_bits_of_int(v as int),
{
    if v == 0 {
        return DoubleBits { bits: 0 };
    }
    let negative = v < 0;
    let mag: u64 = if v == i32::MIN {
        2147483648u64
    } else if negative {
        (-v) as u64
    } else {
        v as u64
    };
    proof {
        lemma2_to64();
        lemma_msb_monotone_bound(mag as nat, 31);
    }
    // Exponent: position of the leading one.
    let mut e: u64 = 0;
    let mut t: u64 = mag;
    while t >= 2
        invariant
            t >= 1,
            msb(mag as nat) == e + msb(t as nat),
            msb(mag as nat) <= 31,
        decreases t,
    {
        proof {
            assert(msb(t as nat) == 1 + msb((t / 2) as nat));
        }
        t = t / 2;
        e = e + 1;
    }
    proof {
        assert(msb(t as nat) == 0);
        assert(e == msb(mag as nat));
        lemma_msb_bounds(mag as nat);
    }
    let lead = pow2_u64(e);
    let scale = pow2_u64(52 - e);
    let frac = mag - lead;
    proof {
        lemma_pow2_adds(e as nat, (52 - e) as nat);
        lemma_pow2_pos(e as nat);
        lemma_pow2_pos((52 - e) as nat);
        assert(lead as nat * scale as nat == pow2(52));
        assert(frac < lead);
        assert((frac as nat) * (scale as nat) < (lead as nat) * (scale as nat)) by (nonlinear_arith)
            requires
                (frac as nat) < (lead as nat),
                scale as nat >= 1,
        ;
        vstd::arithmetic::power2::lemma2_to64_rest();
    }
    let mantissa = frac * scale;
    let exp_field = (1023 + e) * pow2_u64(52);
    proof {
        assert(exp_field as nat == (1023 + e as nat) * 0x10000000000000);
        assert((1023 + e as nat) * 0x10000000000000 <= 1054 * 0x10000000000000)
            by (nonlinear_arith)
            requires
                e <= 31,
        ;
    }
    let bits = if negative {
        9223372036854775808u64 + (exp_field + mantissa)
    } else {
        exp_field + mantissa
    };
    DoubleBits { bits }
}

} // verus!
