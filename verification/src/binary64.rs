//! IEEE-754 binary64 numbers, handled through their 64-bit encodings.
//!
//! An encoding holds a sign bit, eleven exponent bits and fifty-two fraction
//! bits. Every encoding that is not a NaN stands for the real number
//! `scaled(bits) / 2^1074`, the infinities for the two numbers just beyond
//! the finite range. Comparisons are stated over `scaled`, so that a
//! contract written with them speaks of the numbers and not of the bits.
use vstd::arithmetic::mul::lemma_mul_inequality;
use vstd::arithmetic::mul::lemma_mul_strict_inequality;
use vstd::arithmetic::power2::lemma2_to64_rest;
use vstd::arithmetic::power2::lemma_pow2_adds;
use vstd::arithmetic::power2::lemma_pow2_pos;
use vstd::arithmetic::power2::lemma_pow2_strictly_increases;
use vstd::arithmetic::power2::pow2;
use vstd::prelude::*;

verus! {

/// The encoding of negative zero: the sign bit alone.
pub const SIGN: u64 = 0x8000_0000_0000_0000;

/// The weight of the lowest exponent bit, 2^52: the bit that normal numbers hide.
pub const HIDDEN: u64 = 0x0010_0000_0000_0000;

/// The encoding of 0.0.
pub const ZERO: u64 = 0x0000_0000_0000_0000;

/// The encoding of 1.0.
pub const ONE: u64 = 0x3FF0_0000_0000_0000;

/// The encoding of positive infinity.
pub const INFINITY: u64 = 0x7FF0_0000_0000_0000;

/// Whether the sign bit is set.
pub open spec fn negative(bits: u64) -> bool {
    bits >= SIGN
}

/// The encoding without its sign bit.
pub open spec fn magnitude(bits: u64) -> int {
    bits as int % SIGN as int
}

/// The biased exponent, from 0 to 2047.
pub open spec fn exponent(bits: u64) -> int {
    magnitude(bits) / HIDDEN as int
}

/// The fraction field, below 2^52.
pub open spec fn fraction(bits: u64) -> int {
    magnitude(bits) % HIDDEN as int
}

/// Whether the encoding is one of the NaNs.
pub open spec fn nan(bits: u64) -> bool {
    exponent(bits) == 2047 && fraction(bits) != 0
}

/// Whether the encoding is one of the two infinities.
pub open spec fn infinite(bits: u64) -> bool {
    exponent(bits) == 2047 && fraction(bits) == 0
}

/// Whether the encoding stands for a real number.
pub open spec fn finite(bits: u64) -> bool {
    exponent(bits) < 2047
}

/// The absolute value times 2^1074, from the two fields of a magnitude.
///
/// Subnormals (`exponent == 0`) count their fraction in units of 2^-1074;
/// normal numbers add the hidden bit and double with every exponent step.
pub open spec fn weigh(exponent: int, fraction: int) -> int {
    if exponent <= 0 {
        fraction
    } else {
        (HIDDEN + fraction) * pow2((exponent - 1) as nat)
    }
}

/// The number an encoding stands for, times 2^1074. Meaningful unless `nan(bits)`.
pub open spec fn scaled(bits: u64) -> int {
    if negative(bits) {
        -weigh(exponent(bits), fraction(bits))
    } else {
        weigh(exponent(bits), fraction(bits))
    }
}

/// What `scaled` gives for 1.0: 2^1074.
pub open spec fn unit() -> int {
    pow2(1074) as int
}

/// IEEE `a < b`: false with a NaN on either side, else the order of the numbers.
pub open spec fn less(a: u64, b: u64) -> bool {
    !nan(a) && !nan(b) && scaled(a) < scaled(b)
}

/// IEEE `a <= b`: false with a NaN on either side, else the order of the numbers.
pub open spec fn at_most(a: u64, b: u64) -> bool {
    !nan(a) && !nan(b) && scaled(a) <= scaled(b)
}

/// A larger magnitude weighs more: the fields order numbers as the bits do.
pub proof fn lemma_weigh_increases(e1: int, f1: int, e2: int, f2: int)
    requires
        0 <= e1,
        0 <= e2,
        0 <= f1 < HIDDEN,
        0 <= f2 < HIDDEN,
        e1 < e2 || (e1 == e2 && f1 < f2),
    ensures
        0 <= weigh(e1, f1) < weigh(e2, f2),
{
    let hidden: int = HIDDEN as int;
    if e1 == e2 {
        if e1 > 0 {
            let step = pow2((e1 - 1) as nat) as int;
            lemma_pow2_pos((e1 - 1) as nat);
            lemma_mul_strict_inequality(hidden + f1, hidden + f2, step);
            lemma_mul_inequality(0, hidden + f1, step);
        }
    } else {
        let high = pow2((e2 - 1) as nat) as int;
        lemma_pow2_pos((e2 - 1) as nat);
        lemma_mul_inequality(hidden, hidden + f2, high);
        if e1 > 0 {
            let low = pow2((e1 - 1) as nat) as int;
            lemma_pow2_pos((e1 - 1) as nat);
            lemma_pow2_adds(1, (e1 - 1) as nat);
            assert(pow2(1) == 2) by {
                vstd::arithmetic::power2::lemma2_to64();
            }
            lemma_mul_strict_inequality(hidden + f1, 2 * hidden, low);
            lemma_mul_inequality(0, hidden + f1, low);
            assert((2 * hidden) * low == hidden * (2 * low)) by (nonlinear_arith);
            assert(2 * low == pow2(e1 as nat));
            if e1 < e2 - 1 {
                lemma_pow2_strictly_increases(e1 as nat, (e2 - 1) as nat);
            }
            lemma_mul_inequality(2 * low, high, hidden);
            assert(hidden * (2 * low) == (2 * low) * hidden) by (nonlinear_arith);
            assert(hidden * high == high * hidden) by (nonlinear_arith);
        } else {
            assert(pow2(0) == 1) by {
                vstd::arithmetic::power2::lemma2_to64();
            }
            if 0 < e2 - 1 {
                lemma_pow2_strictly_increases(0, (e2 - 1) as nat);
            }
            lemma_mul_inequality(1, high, hidden);
            assert(hidden * high == high * hidden) by (nonlinear_arith);
        }
    }
}

/// Among encodings with a clear sign bit, the larger stands for the larger number.
pub proof fn lemma_scaled_increases(a: u64, b: u64)
    requires
        a < b < SIGN,
    ensures
        0 <= scaled(a) < scaled(b),
{
    lemma_weigh_increases(exponent(a), fraction(a), exponent(b), fraction(b));
}

/// The encoding `ONE` stands for the number one.
pub proof fn lemma_one()
    ensures
        scaled(ONE) == unit(),
        !nan(ONE),
{
    lemma2_to64_rest();
    lemma_pow2_adds(52, 1022);
    assert(exponent(ONE) == 1023);
    assert(fraction(ONE) == 0);
}

/// Zero is the only number that both zeros, and nothing else, stand for.
pub proof fn lemma_zero(bits: u64)
    ensures
        !nan(bits) ==> (scaled(bits) == 0 <==> (bits == ZERO || bits == SIGN)),
{
    let m: u64 = if bits >= SIGN { (bits - SIGN) as u64 } else { bits };
    assert(exponent(m) == exponent(bits) && fraction(m) == fraction(bits));
    if m > 0 {
        lemma_scaled_increases(0, m);
    }
}

/// Whether `bits` encodes a NaN.
pub fn is_nan(bits: u64) -> (r: bool)
    ensures
        r == nan(bits),
{
    let m: u64 = if bits >= SIGN { bits - SIGN } else { bits };
    m > INFINITY
}

/// Whether `bits` encodes a real number, neither an infinity nor a NaN.
pub fn is_finite(bits: u64) -> (r: bool)
    ensures
        r == finite(bits),
{
    let m: u64 = if bits >= SIGN { bits - SIGN } else { bits };
    m < INFINITY
}

/// IEEE `a < b` on encodings.
pub fn lt(a: u64, b: u64) -> (r: bool)
    ensures
        r == less(a, b),
{
    if is_nan(a) || is_nan(b) {
        return false;
    }
    let ma: u64 = if a >= SIGN { a - SIGN } else { a };
    let mb: u64 = if b >= SIGN { b - SIGN } else { b };
    proof {
        assert(exponent(ma) == exponent(a) && fraction(ma) == fraction(a));
        assert(exponent(mb) == exponent(b) && fraction(mb) == fraction(b));
        if ma < mb {
            lemma_scaled_increases(ma, mb);
        }
        if mb < ma {
            lemma_scaled_increases(mb, ma);
        }
        lemma_zero(ma);
        lemma_zero(mb);
    }
    if a >= SIGN {
        if b >= SIGN {
            mb < ma
        } else {
            ma != 0 || mb != 0
        }
    } else {
        if b >= SIGN {
            false
        } else {
            ma < mb
        }
    }
}

/// IEEE `a <= b` on encodings.
pub fn le(a: u64, b: u64) -> (r: bool)
    ensures
        r == at_most(a, b),
{
    if is_nan(a) || is_nan(b) {
        return false;
    }
    !lt(b, a)
}

/// The encoding of the absolute value: `bits` with the sign bit cleared.
pub fn abs(bits: u64) -> (r: u64)
    ensures
        r < SIGN,
        nan(r) == nan(bits),
        !nan(bits) ==> scaled(r) == (if scaled(bits) < 0 { -scaled(bits) } else { scaled(bits) }),
{
    let m: u64 = if bits >= SIGN { bits - SIGN } else { bits };
    proof {
        assert(exponent(m) == exponent(bits) && fraction(m) == fraction(bits));
        if m > 0 {
            lemma_scaled_increases(0, m);
        }
    }
    m
}

} // verus!
