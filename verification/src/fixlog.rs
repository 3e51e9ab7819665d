//! Fixed-point base-2 logarithm.
//!
//! Entropy values are carried in units of 2^-16 bits (`LOG_SCALE`
//! fractional steps per bit), which keeps the whole analyzer in exact
//! integer arithmetic. `log2q(n)` is the integer part of `log2(n)` in whole
//! bits plus sixteen binary fraction digits obtained by mantissa squaring;
//! it is monotone in `n`, zero at 1, and at most `LOG2Q_MAX`.

use vstd::prelude::*;

verus! {

/// Fractional steps per bit: log2q carries 16 binary fraction digits.
pub const LOG_SCALE: u64 = 65536;

/// The largest value log2q can take (at n = u64::MAX: 63 whole bits and
/// all fraction digits set).
pub const LOG2Q_MAX: u64 = 4194303;

/// 2 to the `k`.
pub open spec fn p2(k: nat) -> int
    decreases k,
{
    if k == 0 {
        1
    } else {
        2 * p2((k - 1) as nat)
    }
}

pub proof fn lemma_p2_pos(k: nat)
    ensures
        p2(k) >= 1,
    decreases k,
{
    if k > 0 {
        lemma_p2_pos((k - 1) as nat);
    }
}

pub proof fn lemma_p2_adds(a: nat, b: nat)
    ensures
        p2(a + b) == p2(a) * p2(b),
    decreases a,
{
    if a == 0 {
    } else {
        lemma_p2_adds((a - 1) as nat, b);
        assert(p2(a + b) == 2 * p2((a + b - 1) as nat));
        assert(2 * (p2((a - 1) as nat) * p2(b)) == (2 * p2((a - 1) as nat)) * p2(b))
            by (nonlinear_arith);
    }
}

pub proof fn lemma_p2_monotone(a: nat, b: nat)
    requires
        a <= b,
    ensures
        p2(a) <= p2(b),
    decreases b,
{
    if a < b && b > 0 {
        lemma_p2_monotone(a, (b - 1) as nat);
        lemma_p2_pos((b - 1) as nat);
    }
}

/// The position of the highest set bit: floor(log2(n)).
pub open spec fn floor_log2(n: u64) -> nat
    recommends
        n >= 1,
    decreases n,
{
    if n < 2 {
        0
    } else {
        1 + floor_log2(n / 2)
    }
}

/// `n` lies between consecutive powers of 2 at its floor log.
pub proof fn lemma_floor_log2_bounds(n: u64)
    requires
        n >= 1,
    ensures
        p2(floor_log2(n)) <= n < p2(floor_log2(n) + 1),
        floor_log2(n) <= 63,
    decreases n,
{
    if n < 2 {
        assert(p2(0) == 1);
        assert(p2(1) == 2);
    } else {
        lemma_floor_log2_bounds(n / 2);
        let f = floor_log2(n / 2);
        assert(p2(f + 1) == 2 * p2(f));
        assert(p2(f + 2) == 2 * p2(f + 1));
        if floor_log2(n) > 63 {
            // impossible: p2(64) > u64::MAX
            lemma_p2_monotone(64, floor_log2(n));
            assert(p2(64) == 0x10000000000000000) by {
                lemma_p2_64_value();
            }
        }
    }
}

/// The value of 2^64, by unrolling.
pub proof fn lemma_p2_64_value()
    ensures
        p2(16) == 0x10000,
        p2(31) == 0x80000000,
        p2(32) == 0x100000000,
        p2(63) == 0x8000000000000000,
        p2(64) == 0x10000000000000000,
{
    reveal_with_fuel(p2, 65);
}

pub proof fn lemma_floor_log2_monotone(a: u64, b: u64)
    requires
        1 <= a <= b,
    ensures
        floor_log2(a) <= floor_log2(b),
    decreases b,
{
    if a >= 2 {
        lemma_floor_log2_monotone(a / 2, b / 2);
    }
}

/// The normalized mantissa of `n`: `n` scaled by a power of two into
/// [2^31, 2^32).
pub open spec fn mantissa(n: u64) -> u64
    recommends
        n >= 1,
{
    let f = floor_log2(n);
    if f <= 31 {
        ((n as int) * p2((31 - f) as nat)) as u64
    } else {
        (n as int / p2((f - 31) as nat)) as u64
    }
}

pub proof fn lemma_mantissa_range(n: u64)
    requires
        n >= 1,
    ensures
        0x80000000 <= mantissa(n) < 0x100000000,
        floor_log2(n) <= 31 ==> mantissa(n) == (n as int) * p2((31 - floor_log2(n)) as nat),
        floor_log2(n) > 31 ==> mantissa(n) == n as int / p2((floor_log2(n) - 31) as nat),
    decreases n,
{
    let f = floor_log2(n);
    lemma_floor_log2_bounds(n);
    lemma_p2_64_value();
    if f <= 31 {
        let s = p2((31 - f) as nat);
        lemma_p2_pos((31 - f) as nat);
        lemma_p2_adds(f, (31 - f) as nat);
        lemma_p2_adds((f + 1) as nat, (31 - f) as nat);
        assert(p2(f + 1) == 2 * p2(f));
        // lower: n * s >= p2(f) * s == p2(31)
        assert(n * s >= p2(f) * s) by (nonlinear_arith)
            requires
                n >= p2(f),
                s >= 1,
        ;
        // upper: n * s <= (p2(f + 1) - 1) * s < p2(32)
        assert(n * s <= (p2(f + 1) - 1) * s) by (nonlinear_arith)
            requires
                n <= p2(f + 1) - 1,
                s >= 1,
        ;
        assert((p2(f + 1) - 1) * s == p2(f + 1) * s - s) by (nonlinear_arith);
        assert(n * s < 0x100000000);
        assert(mantissa(n) == n * s);
    } else {
        let d = p2((f - 31) as nat);
        lemma_p2_pos((f - 31) as nat);
        lemma_p2_adds(31, (f - 31) as nat);
        lemma_p2_adds(32, (f - 31) as nat);
        assert(p2(f) == p2(31) * d);
        // lower: n >= p2(f) == p2(31) * d  ==>  n / d >= p2(31)
        assert(n as int / d >= p2(31)) by (nonlinear_arith)
            requires
                n >= p2(31) * d,
                d >= 1,
        ;
        // upper: n < p2(f + 1) == p2(32) * d ... p2(f+1) = 2*p2(f) = 2*p2(31)*d = p2(32)*d
        assert(p2(f + 1) == 2 * p2(f));
        assert(2 * (p2(31) * d) == p2(32) * d) by (nonlinear_arith);
        assert(n as int / d < p2(32)) by (nonlinear_arith)
            requires
                n < p2(32) * d,
                d >= 1,
        ;
        assert(d <= p2(32)) by {
            lemma_p2_monotone((f - 31) as nat, 32);
        }
        assert(mantissa(n) == n as int / d);
    }
}

/// The binary fraction digits of log2, by mantissa squaring: `k` digits of
/// the fractional part of log2(m / 2^31), most significant first, for a
/// mantissa in [2^31, 2^32).
pub open spec fn frac_bits(m: u64, k: nat) -> int
    decreases k,
{
    if k == 0 {
        0
    } else {
        let sq = (m as int) * (m as int);
        if sq >= 0x8000000000000000 {
            p2((k - 1) as nat) + frac_bits((sq / 0x100000000) as u64, (k - 1) as nat)
        } else {
            frac_bits((sq / 0x80000000) as u64, (k - 1) as nat)
        }
    }
}

/// The squaring step stays inside the mantissa range.
pub proof fn lemma_frac_step_range(m: u64)
    requires
        0x80000000 <= m < 0x100000000,
    ensures
        (m as int) * (m as int) < 0x10000000000000000,
        (m as int) * (m as int) >= 0x4000000000000000,
        (m as int) * (m as int) >= 0x8000000000000000 ==> 0x80000000 <= ((m as int) * (m as int))
            / 0x100000000 < 0x100000000,
        (m as int) * (m as int) < 0x8000000000000000 ==> 0x80000000 <= ((m as int) * (m as int))
            / 0x80000000 < 0x100000000,
{
    assert((m as int) * (m as int) < 0x100000000 * 0x100000000) by (nonlinear_arith)
        requires
            m < 0x100000000,
    ;
    assert((m as int) * (m as int) >= 0x80000000 * 0x80000000) by (nonlinear_arith)
        requires
            m >= 0x80000000,
    ;
}

/// Fraction digits are below their radix.
pub proof fn lemma_frac_bits_bound(m: u64, k: nat)
    ensures
        0 <= frac_bits(m, k) < p2(k),
    decreases k,
{
    if k == 0 {
    } else {
        let sq = (m as int) * (m as int);
        if sq >= 0x8000000000000000 {
            lemma_frac_bits_bound((sq / 0x100000000) as u64, (k - 1) as nat);
        } else {
            lemma_frac_bits_bound((sq / 0x80000000) as u64, (k - 1) as nat);
        }
        assert(p2(k) == 2 * p2((k - 1) as nat));
    }
}

/// Fraction digits are monotone in the mantissa.
pub proof fn lemma_frac_bits_monotone(m1: u64, m2: u64, k: nat)
    requires
        0x80000000 <= m1 <= m2,
        m2 < 0x100000000,
    ensures
        frac_bits(m1, k) <= frac_bits(m2, k),
    decreases k,
{
    if k > 0 {
        let sq1 = (m1 as int) * (m1 as int);
        let sq2 = (m2 as int) * (m2 as int);
        lemma_frac_step_range(m1);
        lemma_frac_step_range(m2);
        assert((m1 as int) * (m1 as int) <= (m2 as int) * (m2 as int)) by (nonlinear_arith)
            requires
                0 <= m1 <= m2,
        ;
        assert(sq1 <= sq2);
        if sq1 >= 0x8000000000000000 {
            // both high
            assert(sq1 / 0x100000000 <= sq2 / 0x100000000) by (nonlinear_arith)
                requires
                    0 <= sq1 <= sq2,
            ;
            lemma_frac_bits_monotone((sq1 / 0x100000000) as u64, (sq2 / 0x100000000) as u64, (k
                - 1) as nat);
        } else if sq2 < 0x8000000000000000 {
            // both low
            assert(sq1 / 0x80000000 <= sq2 / 0x80000000) by (nonlinear_arith)
                requires
                    0 <= sq1 <= sq2,
            ;
            lemma_frac_bits_monotone((sq1 / 0x80000000) as u64, (sq2 / 0x80000000) as u64, (k
                - 1) as nat);
        } else {
            // m1 takes the low branch, m2 the high branch: the high branch
            // contributes its leading digit, which dominates the rest.
            lemma_frac_bits_bound((sq1 / 0x80000000) as u64, (k - 1) as nat);
            lemma_frac_bits_bound((sq2 / 0x100000000) as u64, (k - 1) as nat);
        }
    }
}

/// The base-2 logarithm of `n` in units of 2^-16 bits: the floor log in
/// whole bits plus sixteen binary fraction digits. Defined as 0 at 0 (the
/// analyzer guards every use).
pub open spec fn spec_log2q(n: u64) -> int {
    if n == 0 {
        0
    } else {
        floor_log2(n) * 0x10000 + frac_bits(mantissa(n), 16)
    }
}

/// log2q of 1 is exactly 0.
pub proof fn lemma_log2q_one()
    ensures
        spec_log2q(1) == 0,
{
    lemma_p2_64_value();
    assert(mantissa(1) == 0x80000000) by {
        assert(floor_log2(1u64) == 0);
        assert(p2(31) == 0x80000000);
    }
    lemma_frac_bits_of_half_stays_zero(16);
}

/// The mantissa of an exact power of two contributes no fraction digits.
pub proof fn lemma_frac_bits_of_half_stays_zero(k: nat)
    ensures
        frac_bits(0x80000000, k) == 0,
    decreases k,
{
    if k > 0 {
        assert(0x80000000int * 0x80000000int == 0x4000000000000000) by (nonlinear_arith);
        assert(0x4000000000000000int / 0x80000000int == 0x80000000);
        lemma_frac_bits_of_half_stays_zero((k - 1) as nat);
    }
}

/// log2q is monotone.
pub proof fn lemma_log2q_monotone(a: u64, b: u64)
    requires
        a <= b,
    ensures
        spec_log2q(a) <= spec_log2q(b),
{
    if a == 0 {
        lemma_log2q_nonneg(b);
    } else {
        let fa = floor_log2(a);
        let fb = floor_log2(b);
        lemma_floor_log2_monotone(a, b);
        lemma_frac_bits_bound(mantissa(a), 16);
        lemma_frac_bits_bound(mantissa(b), 16);
        lemma_p2_64_value();
        if fa == fb {
            lemma_mantissa_monotone(a, b);
            lemma_mantissa_range(a);
            lemma_mantissa_range(b);
            lemma_frac_bits_monotone(mantissa(a), mantissa(b), 16);
        } else {
            // fa < fb: a whole bit separates them, which outweighs any
            // fraction digits.
            assert(fa * 0x10000 + 0x10000 <= fb * 0x10000) by (nonlinear_arith)
                requires
                    fa + 1 <= fb,
            ;
        }
    }
}

/// log2q is non-negative.
pub proof fn lemma_log2q_nonneg(n: u64)
    ensures
        spec_log2q(n) >= 0,
{
    if n >= 1 {
        lemma_frac_bits_bound(mantissa(n), 16);
    }
}

/// Mantissas of values with equal floor logs are ordered as the values.
pub proof fn lemma_mantissa_monotone(a: u64, b: u64)
    requires
        1 <= a <= b,
        floor_log2(a) == floor_log2(b),
    ensures
        mantissa(a) <= mantissa(b),
{
    let f = floor_log2(a);
    lemma_mantissa_range(a);
    lemma_mantissa_range(b);
    if f <= 31 {
        lemma_p2_pos((31 - f) as nat);
        assert((a as int) * p2((31 - f) as nat) <= (b as int) * p2((31 - f) as nat))
            by (nonlinear_arith)
            requires
                a <= b,
                p2((31 - f) as nat) >= 0,
        ;
    } else {
        lemma_p2_pos((f - 31) as nat);
        assert(a as int / p2((f - 31) as nat) <= b as int / p2((f - 31) as nat))
            by (nonlinear_arith)
            requires
                0 <= a <= b,
                p2((f - 31) as nat) >= 1,
        ;
    }
}

/// log2q never exceeds `LOG2Q_MAX`.
pub proof fn lemma_log2q_bound(n: u64)
    ensures
        0 <= spec_log2q(n) <= LOG2Q_MAX,
{
    lemma_log2q_nonneg(n);
    if n >= 1 {
        lemma_floor_log2_bounds(n);
        lemma_frac_bits_bound(mantissa(n), 16);
        lemma_p2_64_value();
        assert(floor_log2(n) * 0x10000 <= 63 * 0x10000) by (nonlinear_arith)
            requires
                floor_log2(n) <= 63,
        ;
    }
}

/// Values of 2 or more have at least one whole bit of log.
pub proof fn lemma_log2q_ge_one_bit(n: u64)
    requires
        n >= 2,
    ensures
        spec_log2q(n) >= 0x10000,
{
    assert(floor_log2(n) >= 1);
    lemma_frac_bits_bound(mantissa(n), 16);
    assert(floor_log2(n) * 0x10000 >= 0x10000) by (nonlinear_arith)
        requires
            floor_log2(n) >= 1,
    ;
}

/// Computes `spec_log2q(n)`.
pub fn log2q(n: u64) -> (r: u64)
    ensures
        r == spec_log2q(n),
        r <= LOG2Q_MAX,
{
    proof {
        lemma_log2q_bound(n);
    }
    if n == 0 {
        return 0;
    }
    proof {
        lemma_floor_log2_bounds(n);
    }
    // Whole bits.
    let mut f: u64 = 0;
    let mut m: u64 = n;
    while m >= 2
        invariant
            m >= 1,
            floor_log2(n) == f + floor_log2(m),
            floor_log2(n) <= 63,
        decreases m,
    {
        m = m / 2;
        f = f + 1;
    }
    assert(floor_log2(m) == 0);
    assert(f == floor_log2(n));

    // Normalized mantissa in [2^31, 2^32).
    proof {
        lemma_mantissa_range(n);
        lemma_p2_64_value();
    }
    let mut mant: u64 = n;
    if f <= 31 {
        proof {
            assert((n as int) * p2(0) == n) by (nonlinear_arith)
                requires
                    p2(0) == 1,
            ;
            lemma_p2_monotone((f + 1) as nat, 32);
        }
        let mut j: u64 = 0;
        while j < 31 - f
            invariant
                f <= 31,
                j <= 31 - f,
                mant == (n as int) * p2(j as nat),
                mant < 0x100000000,
                f == floor_log2(n),
                n >= 1,
            decreases 31 - f - j,
    {
            proof {
                // doubling stays below 2^32 until the mantissa is reached
                lemma_floor_log2_bounds(n);
                lemma_p2_pos(j as nat);
                assert(p2((j + 1) as nat) == 2 * p2(j as nat));
                assert((n as int) * p2((j + 1) as nat) == 2 * ((n as int) * p2(j as nat)))
                    by (nonlinear_arith)
                    requires
                        p2((j + 1) as nat) == 2 * p2(j as nat),
                ;
                assert((n as int) * p2((j + 1) as nat) < p2((f + 1) as nat) * p2((j + 1) as nat))
                    by (nonlinear_arith)
                    requires
                        n < p2((f + 1) as nat),
                        p2((j + 1) as nat) >= 1,
                ;
                lemma_p2_adds((f + 1) as nat, (j + 1) as nat);
                lemma_p2_monotone((f + 1 + j + 1) as nat, 32);
                lemma_p2_64_value();
            }
            mant = mant * 2;
            j = j + 1;
        }
        proof {
            assert(mant == mantissa(n));
        }
    } else {
        let mut j: u64 = 0;
        while j < f - 31
            invariant
                31 < f <= 63,
                j <= f - 31,
                mant == n as int / p2(j as nat),
                f == floor_log2(n),
            decreases f - 31 - j,
        {
            proof {
                assert(p2((j + 1) as nat) == 2 * p2(j as nat));
                lemma_p2_pos(j as nat);
                assert((n as int / p2(j as nat)) / 2 == n as int / (p2(j as nat) * 2)) by {
                    vstd::arithmetic::div_mod::lemma_div_denominator(n as int, p2(j as nat), 2);
                }
            }
            mant = mant / 2;
            j = j + 1;
        }
        proof {
            assert(mant == mantissa(n));
        }
    }
    proof {
        lemma_mantissa_range(n);
    }

    // Sixteen fraction digits by mantissa squaring.
    let ghost mant0 = mant;
    proof {
        assert(p2(16) == 0x10000) by {
            lemma_p2_64_value();
        }
        assert(frac_bits(mant0, 16) == 0 * p2(16) + frac_bits(mant, 16)) by (nonlinear_arith)
            requires
                frac_bits(mant0, 16) == frac_bits(mant, 16),
        ;
    }
    let mut frac: u64 = 0;
    let mut i: u64 = 0;
    while i < 16
        invariant
            i <= 16,
            0x80000000 <= mant < 0x100000000,
            frac_bits(mant0, 16) == frac * p2((16 - i) as nat) + frac_bits(mant, (16 - i) as nat),
            frac < p2(i as nat),
        decreases 16 - i,
    {
        let ghost prev = mant;
        let ghost prev_frac = frac;
        proof {
            lemma_frac_step_range(mant);
            lemma_p2_64_value();
            lemma_p2_monotone(i as nat, 16);
        }
        let sq: u64 = mant * mant;
        let bit: u64 = if sq >= 0x8000000000000000 {
            1
        } else {
            0
        };
        if bit == 1 {
            mant = sq / 0x100000000;
        } else {
            mant = sq / 0x80000000;
        }
        frac = 2 * frac + bit;
        i = i + 1;
        proof {
            let k = (16 - i + 1) as nat;
            assert(p2(k) == 2 * p2((k - 1) as nat));
            // one digit peels off the recurrence
            assert(frac_bits(prev, k) == bit * p2((k - 1) as nat) + frac_bits(
                mant,
                (k - 1) as nat,
            ));
            assert(frac * p2((k - 1) as nat) == prev_frac * p2(k) + bit * p2((k - 1) as nat))
                by (nonlinear_arith)
                requires
                    p2(k) == 2 * p2((k - 1) as nat),
                    frac == 2 * prev_frac + bit,
            ;
        }
    }
    proof {
        assert(p2(0) == 1);
        assert(frac_bits(mant, 0) == 0);
        assert(frac * p2(0) == frac) by (nonlinear_arith)
            requires
                p2(0) == 1,
        ;
        lemma_p2_64_value();
        lemma_frac_bits_bound(mant0, 16);
        assert(f * 65536 <= 63 * 65536) by (nonlinear_arith)
            requires
                f <= 63,
        ;
    }
    f * 65536 + frac
}

} // verus!
