//! Fixed-point arithmetic kernels for the oscillator engine.
//!
//! Parameters and log-domain pitch values carry 16 fractional bits
//! ("Q16"): the integer 65536 stands for 1.0. The kernels here are an
//! integer square root (for the stereo mix weights), a base-2 exponential
//! over Q16 (to turn a log-domain pitch into a linear phase increment),
//! and a base-2 logarithm over Q16 (to turn a note's phase increment into
//! its log-domain form). The exponential interpolates the fractional part
//! with a quadratic that is exact at whole octaves; the logarithm has an
//! exact integer part and a 16-bit fractional part found by repeated
//! squaring.
use vstd::arithmetic::div_mod::lemma_div_is_ordered;
use vstd::arithmetic::mul::{
    lemma_mul_inequality, lemma_mul_inequality_converse, lemma_mul_is_associative,
    lemma_mul_is_commutative, lemma_mul_left_inequality, lemma_mul_strict_inequality,
    lemma_mul_strict_inequality_converse,
};
use vstd::arithmetic::power2::{
    lemma2_to64, lemma2_to64_rest, lemma_pow2_adds, lemma_pow2_pos, lemma_pow2_strictly_increases,
    pow2,
};
use vstd::prelude::*;

verus! {

/// Linear coefficient of the quadratic interpolant of `2^f` on `[0, 1)`.
pub const EXP2_COEFF_LIN: i64 = 42598;

/// Quadratic coefficient; the two sum to one so that the interpolant
/// meets 2.0 exactly at the end of the octave.
pub const EXP2_COEFF_QUAD: i64 = 22938;

/// Largest log-domain phase increment: 31 octaves above one phase unit
/// per sample, i.e. half the phase range per sample (the Nyquist rate).
pub const LOG_PD_MAX: i64 = 2031616;

/// The integer square root as a specification value: the unique
/// nonnegative `r` with `r * r <= x < (r + 1) * (r + 1)`.
pub open spec fn sqrt_floor_spec(x: int) -> int {
    choose|r: int| 0 <= r && #[trigger] (r * r) <= x && x < (r + 1) * (r + 1)
}

/// Any value with the square-root bracketing property is the
/// specification square root.
pub proof fn lemma_sqrt_floor_unique(x: int, r: int)
    requires
        0 <= r,
        r * r <= x,
        x < (r + 1) * (r + 1),
    ensures
        sqrt_floor_spec(x) == r,
{
    let c = choose|c: int| 0 <= c && #[trigger] (c * c) <= x && x < (c + 1) * (c + 1);
    assert(0 <= c && c * c <= x && x < (c + 1) * (c + 1));
    if c < r {
        assert((c + 1) * (c + 1) <= r * r) by (nonlinear_arith)
            requires
                0 <= c,
                c + 1 <= r,
        ;
    }
    if r < c {
        assert((r + 1) * (r + 1) <= c * c) by (nonlinear_arith)
            requires
                0 <= r,
                r + 1 <= c,
        ;
    }
}

/// Every nonnegative integer has an integer square root, so the
/// specification square root satisfies its own bracketing property.
pub proof fn lemma_sqrt_floor_bracket(x: int)
    requires
        0 <= x,
    ensures
        0 <= sqrt_floor_spec(x),
        sqrt_floor_spec(x) * sqrt_floor_spec(x) <= x,
        x < (sqrt_floor_spec(x) + 1) * (sqrt_floor_spec(x) + 1),
    decreases x,
{
    if x == 0 {
        lemma_sqrt_floor_unique(0, 0);
    } else {
        lemma_sqrt_floor_bracket(x - 1);
        let r = sqrt_floor_spec(x - 1);
        if x == (r + 1) * (r + 1) {
            assert(x < (r + 2) * (r + 2)) by (nonlinear_arith)
                requires
                    0 <= r,
                    x == (r + 1) * (r + 1),
            ;
            lemma_sqrt_floor_unique(x, r + 1);
        } else {
            lemma_sqrt_floor_unique(x, r);
        }
    }
}

/// Square roots preserve order.
pub proof fn lemma_sqrt_floor_monotone(x: int, y: int)
    requires
        0 <= x <= y,
    ensures
        sqrt_floor_spec(x) <= sqrt_floor_spec(y),
{
    lemma_sqrt_floor_bracket(x);
    lemma_sqrt_floor_bracket(y);
    let a = sqrt_floor_spec(x);
    let b = sqrt_floor_spec(y);
    if b < a {
        assert((b + 1) * (b + 1) <= a * a) by (nonlinear_arith)
            requires
                0 <= b,
                b + 1 <= a,
        ;
    }
}

/// Integer square root: the largest `r` with `r * r <= x`.
pub fn isqrt(x: u64) -> (r: u64)
    ensures
        r * r <= x,
        x < (r + 1) * (r + 1),
        r == sqrt_floor_spec(x as int),
{
    let mut lo: u64 = 0;
    let mut hi: u64 = 0x1_0000_0000;
    proof {
        assert((0x1_0000_0000u64 as int) * (0x1_0000_0000u64 as int) > u64::MAX as int);
    }
    while hi - lo > 1
        invariant
            lo < hi <= 0x1_0000_0000,
            lo * lo <= x,
            x < hi * hi,
        decreases hi - lo,
    {
        let mid = lo + (hi - lo) / 2;
        proof {
            lemma_mul_inequality(mid as int, 0x1_0000_0000, mid as int);
            lemma_mul_left_inequality(0x1_0000_0000, mid as int, 0x1_0000_0000);
        }
        if (mid as u128) * (mid as u128) <= x as u128 {
            lo = mid;
        } else {
            hi = mid;
        }
    }
    proof {
        lemma_sqrt_floor_unique(x as int, lo as int);
    }
    lo
}

/// The quadratic interpolant of `2^(f / 65536)` in Q16, for the
/// fractional part `f` of a log-domain value.
pub open spec fn exp2_frac_spec(f: int) -> int {
    65536 + EXP2_COEFF_LIN * f / 65536 + EXP2_COEFF_QUAD * (f * f / 65536) / 65536
}

/// `2^(x / 65536)` in Q16: the interpolated fraction scaled up by the
/// whole number of octaves in `x`.
pub open spec fn exp2_q16_spec(x: int) -> int {
    exp2_frac_spec(x % 65536) * pow2((x / 65536) as nat)
}

proof fn lemma_exp2_frac_bounds(f: int)
    requires
        0 <= f < 65536,
    ensures
        65536 <= exp2_frac_spec(f) < 131072,
        f == 0 ==> exp2_frac_spec(f) == 65536,
{
    assert(EXP2_COEFF_LIN * f <= EXP2_COEFF_LIN * 65535) by {
        lemma_mul_inequality(f, 65535, EXP2_COEFF_LIN as int);
        lemma_mul_is_commutative(EXP2_COEFF_LIN as int, f);
        lemma_mul_is_commutative(EXP2_COEFF_LIN as int, 65535);
    }
    assert(f * f <= 65535 * 65535) by {
        lemma_mul_inequality(f, 65535, f);
        lemma_mul_inequality(f, 65535, 65535);
        lemma_mul_is_commutative(f, 65535);
    }
    assert(EXP2_COEFF_LIN * f >= 0) by {
        lemma_mul_inequality(0, f, EXP2_COEFF_LIN as int);
        lemma_mul_is_commutative(EXP2_COEFF_LIN as int, f);
    }
    assert(f * f >= 0) by {
        lemma_mul_inequality(0, f, f);
        lemma_mul_is_commutative(f, 0);
    }
    assert(EXP2_COEFF_QUAD * (f * f / 65536) >= 0) by {
        lemma_mul_inequality(0, f * f / 65536, EXP2_COEFF_QUAD as int);
        lemma_mul_is_commutative(EXP2_COEFF_QUAD as int, f * f / 65536);
    }
    assert(f * f / 65536 <= 65535 * 65535 / 65536) by {
        lemma_div_is_ordered(f * f, 65535int * 65535, 65536int);
    }
    assert(EXP2_COEFF_QUAD * (f * f / 65536) <= EXP2_COEFF_QUAD * 65534) by {
        lemma_mul_inequality(f * f / 65536, 65534, EXP2_COEFF_QUAD as int);
        lemma_mul_is_commutative(EXP2_COEFF_QUAD as int, f * f / 65536);
        lemma_mul_is_commutative(EXP2_COEFF_QUAD as int, 65534);
    }
}

/// Base-2 exponential of a nonnegative Q16 log-domain value, in Q16.
pub fn exp2_q16(x: i64) -> (r: u64)
    requires
        0 <= x <= LOG_PD_MAX,
    ensures
        r == exp2_q16_spec(x as int),
        65536 <= r,
        r < 0x1_0000_0000_0000,
        x == 0 ==> r == 65536,
{
    let xu: u64 = x as u64;
    let k: u64 = xu / 65536;
    let f: u64 = xu % 65536;
    proof {
        lemma_mul_inequality(f as int, 65535, f as int);
        lemma_mul_left_inequality(65535, f as int, 65535);
        lemma_mul_inequality(f as int, 65535, EXP2_COEFF_LIN as int);
        lemma_mul_is_commutative(EXP2_COEFF_LIN as int, f as int);
        lemma_mul_is_commutative(EXP2_COEFF_LIN as int, 65535);
    }
    let lin: u64 = (EXP2_COEFF_LIN as u64) * f / 65536;
    let quad: u64 = (EXP2_COEFF_QUAD as u64) * ((f * f) / 65536) / 65536;
    proof {
        lemma_exp2_frac_bounds(f as int);
    }
    let frac: u64 = 65536 + lin + quad;
    let mut r: u64 = frac;
    let mut i: u64 = 0;
    proof {
        lemma2_to64();
        assert(pow2(0) == 1);
    }
    while i < k
        invariant
            0 <= i <= k <= 31,
            65536 <= exp2_frac_spec(f as int) < 131072,
            r == exp2_frac_spec(f as int) * pow2(i as nat),
            r < 131072 * pow2(i as nat),
        decreases k - i,
    {
        proof {
            lemma2_to64();
            lemma2_to64_rest();
            assert(pow2(i as nat) <= pow2(31)) by {
                if i < 31 {
                    lemma_pow2_strictly_increases(i as nat, 31);
                }
            }
            assert(131072 * pow2(i as nat) <= 131072 * pow2(31)) by {
                lemma_mul_inequality(pow2(i as nat) as int, pow2(31) as int, 131072);
                lemma_mul_is_commutative(131072, pow2(i as nat) as int);
                lemma_mul_is_commutative(131072, pow2(31) as int);
            }
            assert(pow2((i + 1) as nat) == pow2(i as nat) * 2) by {
                lemma_pow2_adds(i as nat, 1);
                assert(pow2(1) == 2);
            }
            lemma_mul_is_associative(
                exp2_frac_spec(f as int),
                pow2(i as nat) as int,
                2,
            );
        }
        r = r * 2;
        i = i + 1;
    }
    proof {
        assert(131072 * pow2(31) == 0x1_0000_0000_0000) by {
            lemma2_to64();
            lemma2_to64_rest();
        }
        assert(r == exp2_q16_spec(x as int));
        assert(65536 <= r) by {
            lemma_pow2_pos(k as nat);
            lemma_mul_inequality(65536, exp2_frac_spec(f as int), pow2(k as nat) as int);
            lemma_mul_left_inequality(65536, 1, pow2(k as nat) as int);
        }
    }
    r
}

/// Exponent of the highest power of two not above `v`.
pub open spec fn floor_log2(v: int) -> int
    decreases v,
{
    if v < 2 {
        0
    } else {
        1 + floor_log2(v / 2)
    }
}

/// `floor_log2` names the power-of-two interval that holds `v`.
pub proof fn lemma_floor_log2_bounds(v: int, k: nat)
    requires
        pow2(k) <= v < pow2(k + 1),
    ensures
        floor_log2(v) == k,
    decreases k,
{
    lemma_pow2_pos(k);
    lemma_pow2_adds(k, 1);
    lemma2_to64();
    if k == 0 {
        assert(1 <= v < 2);
    } else {
        lemma_pow2_adds((k - 1) as nat, 1);
        lemma_pow2_pos((k - 1) as nat);
        assert(pow2((k - 1) as nat) <= v / 2 < pow2(k)) by {
            assert(pow2(k) == pow2((k - 1) as nat) * 2);
            assert(pow2(k + 1) == pow2(k) * 2);
        }
        lemma_floor_log2_bounds(v / 2, (k - 1) as nat);
    }
}

/// The logarithm is never negative.
pub proof fn lemma_floor_log2_nonneg(v: int)
    ensures
        floor_log2(v) >= 0,
    decreases v,
{
    if v >= 2 {
        lemma_floor_log2_nonneg(v / 2);
    }
}

/// Anything below `pow2(k + 1)` has `floor_log2` at most `k`.
pub proof fn lemma_floor_log2_upper(v: int, k: nat)
    requires
        1 <= v,
        v < pow2(k + 1),
    ensures
        floor_log2(v) <= k,
    decreases k,
{
    lemma2_to64();
    if k == 0 {
        assert(v < 2);
    } else {
        lemma_pow2_adds(k, 1);
        if v >= 2 {
            lemma_floor_log2_upper(v / 2, (k - 1) as nat);
        }
    }
}

/// A larger value never has a smaller base-2 logarithm.
pub proof fn lemma_floor_log2_monotone(a: int, b: int)
    requires
        1 <= a <= b,
    ensures
        floor_log2(a) <= floor_log2(b),
    decreases b,
{
    if a >= 2 {
        lemma_floor_log2_monotone(a / 2, b / 2);
    } else {
        lemma_floor_log2_nonneg(b);
    }
}

/// Base-2 logarithm of a positive integer, in Q16. The whole-octave part
/// is exact; the fractional part is a 16-bit approximation, and is zero
/// exactly when `v` is a power of two.
pub fn log2_q16(v: u64) -> (r: i64)
    requires
        1 <= v,
    ensures
        65536 * floor_log2(v as int) <= r < 65536 * (floor_log2(v as int) + 1),
        v as int == pow2(floor_log2(v as int) as nat) ==> r == 65536 * floor_log2(v as int),
        0 <= r < 64 * 65536,
{
    let mut w: u128 = (v as u128) * 65536;
    let mut k: u64 = 0;
    proof {
        lemma2_to64();
        assert(pow2(0) == 1);
    }
    while w >= 131072
        invariant
            1 <= v,
            k <= 63,
            w >= 65536,
            (pow2(k as nat) as int) * (w as int) <= (v as int) * 65536,
            (v as int) * 65536 < (pow2(k as nat) as int) * ((w as int) + 1),
        decreases w,
    {
        let ghost p = pow2(k as nat) as int;
        let ghost wi = w as int;
        proof {
            lemma_pow2_pos(k as nat);
            lemma_pow2_adds(k as nat, 1);
            lemma2_to64();
            assert(pow2((k + 1) as nat) == pow2(k as nat) * 2);
            // Lower bound carries over: 2^(k+1) * (w/2) <= 2^k * w.
            assert((p * 2) * (wi / 2) <= p * wi) by {
                assert(2 * (wi / 2) <= wi);
                lemma_mul_left_inequality(p, 2 * (wi / 2), wi);
                lemma_mul_is_associative(p, 2, wi / 2);
            }
            // Upper bound carries over: 2^k * (w+1) <= 2^(k+1) * (w/2 + 1).
            assert(p * (wi + 1) <= (p * 2) * (wi / 2 + 1)) by {
                assert(wi + 1 <= 2 * (wi / 2 + 1));
                lemma_mul_left_inequality(p, wi + 1, 2 * (wi / 2 + 1));
                lemma_mul_is_associative(p, 2, wi / 2 + 1);
            }
            // k stays small: 2^(k+17) <= v * 65536 < 2^80.
            assert(k < 63) by {
                lemma_pow2_adds(k as nat, 17);
                lemma2_to64_rest();
                assert(p * 131072 <= p * wi) by {
                    lemma_mul_left_inequality(p, 131072, wi);
                }
                assert((v as int) * 65536 < pow2(80)) by {
                    lemma_mul_inequality(v as int, u64::MAX as int, 65536);
                    lemma_pow2_adds(64, 16);
                    lemma_mul_is_commutative(v as int, 65536);
                    lemma_mul_is_commutative(u64::MAX as int, 65536);
                }
                if k >= 63 {
                    lemma_pow2_strictly_increases(80, (k + 17) as nat);
                }
                assert(p * 131072 == pow2((k + 17) as nat)) by {
                    lemma_mul_is_commutative(p, 131072);
                }
            }
        }
        w = w / 2;
        k = k + 1;
    }
    let ghost kk = k as nat;
    proof {
        // From 65536 <= w < 131072 conclude pow2(k) <= v < pow2(k + 1).
        let p = pow2(kk) as int;
        lemma_pow2_pos(kk);
        assert(p * 65536 <= p * (w as int)) by {
            lemma_mul_left_inequality(p, 65536, w as int);
        }
        assert(p * ((w as int) + 1) <= p * 131072) by {
            lemma_mul_left_inequality(p, (w as int) + 1, 131072);
        }
        assert((v as int) >= p) by {
            lemma_mul_is_commutative(p, 65536);
            lemma_mul_is_commutative(v as int, 65536);
            lemma_mul_inequality_converse(p, v as int, 65536);
        }
        assert((v as int) < pow2(kk + 1)) by {
            lemma_pow2_adds(kk, 1);
            lemma2_to64();
            assert(p * 131072 == (pow2(kk + 1) as int) * 65536) by {
                lemma_mul_is_associative(p, 2, 65536);
                lemma_mul_is_commutative(p, 2);
            }
            lemma_mul_is_commutative(v as int, 65536);
            lemma_mul_strict_inequality_converse(v as int, pow2(kk + 1) as int, 65536);
        }
        lemma_floor_log2_bounds(v as int, kk);
        // When v is exactly a power of two the normalized mantissa is one.
        if v as int == pow2(kk) {
            lemma_mul_is_commutative(p, w as int);
            lemma_mul_is_commutative(p, 65536);
            lemma_mul_is_commutative(p, (w as int) + 1);
            lemma_mul_is_commutative(v as int, 65536);
            lemma_mul_inequality_converse(w as int, 65536, p);
            lemma_mul_strict_inequality_converse(65536, (w as int) + 1, p);
            assert(w == 65536);
        }
    }
    let mut m: u64 = w as u64;
    let mut f: i64 = 0;
    let mut j: u64 = 0;
    let ghost m0 = m;
    proof {
        lemma2_to64();
    }
    while j < 16
        invariant
            j <= 16,
            65536 <= m < 131072,
            0 <= f < pow2(j as nat),
            m0 == 65536 ==> m == 65536 && f == 0,
        decreases 16 - j,
    {
        proof {
            assert(m * m < 131072 * 131072) by {
                lemma_mul_strict_inequality(m as int, 131072, m as int);
                lemma_mul_is_commutative(m as int, 131072);
                lemma_mul_inequality(m as int, 131072, 131072);
            }
            assert(m * m >= 65536 * 65536) by {
                lemma_mul_inequality(65536, m as int, m as int);
                lemma_mul_is_commutative(m as int, 65536);
                lemma_mul_inequality(65536, m as int, 65536);
            }
            assert(m * m / 65536 >= 65536) by {
                lemma_div_is_ordered(65536int * 65536, (m * m) as int, 65536int);
            }
            assert(m * m / 65536 < 262144) by {
                lemma_div_is_ordered((m * m) as int, 131072 * 131072 - 1, 65536);
            }
            lemma_pow2_adds(j as nat, 1);
            lemma2_to64();
            assert(pow2((j + 1) as nat) == pow2(j as nat) * 2);
            assert(pow2(j as nat) <= pow2(15)) by {
                if j < 15 {
                    lemma_pow2_strictly_increases(j as nat, 15);
                }
            }
        }
        m = (m * m) / 65536;
        if m >= 131072 {
            m = m / 2;
            f = f * 2 + 1;
        } else {
            f = f * 2;
        }
        j = j + 1;
    }
    proof {
        lemma2_to64();
        assert(pow2(16) == 65536);
    }
    (k as i64) * 65536 + f
}

} // verus!

