//! Fixed-point scalars: signed 64-bit integers that count steps of `1 / UNIT`.
//!
//! Products and quotients are formed exactly in 128 bits, rounded towards minus
//! infinity, and brought back to 64 bits by saturation.

use vstd::arithmetic::div_mod::lemma_fundamental_div_mod;
use vstd::arithmetic::div_mod::lemma_fundamental_div_mod_converse;
use vstd::prelude::*;

verus! {

/// The fixed-point value of one: a stored `v` stands for the number `v / UNIT`.
pub const UNIT: i64 = 65536;

/// The value of the 64-bit range that lies nearest to `v`.
pub open spec fn saturate(v: int) -> int {
    if v < i64::MIN {
        i64::MIN as int
    } else if v > i64::MAX {
        i64::MAX as int
    } else {
        v
    }
}

/// Whether `v` lies in the 64-bit range, so that saturation leaves it alone.
pub open spec fn representable(v: int) -> bool {
    i64::MIN <= v <= i64::MAX
}

/// `n / d` rounded towards plus infinity, for a positive `d`.
pub open spec fn div_ceil(n: int, d: int) -> int {
    -((-n) / d)
}

/// `v * num / den` rounded towards minus infinity, then saturated.
///
/// With `num == UNIT` this divides a fixed-point value by `den`; with
/// `den == UNIT` it multiplies one by `num`.
pub open spec fn rescale(v: int, num: int, den: int) -> int {
    saturate(v * num / den)
}

/// Whether `back` is `v` up to the rounding of one division by `den` and one
/// by `num`: it is not above `v`, and below it by less than `den / num + 1`.
pub open spec fn rounds_back(v: int, back: int, num: int, den: int) -> bool {
    back <= v && (v - back) * num < den + num
}

/// Brings a 128-bit value into the 64-bit range.
pub fn saturating_narrow(v: i128) -> (r: i64)
    ensures
        r == saturate(v as int),
{
    if v < i64::MIN as i128 {
        i64::MIN
    } else if v > i64::MAX as i128 {
        i64::MAX
    } else {
        v as i64
    }
}

/// `n / d` rounded towards minus infinity.
pub fn floor_div(n: i128, d: i128) -> (q: i128)
    requires
        d > 0,
    ensures
        q == n / d,
{
    if n >= 0 {
        n / d
    } else {
        let m: i128 = -(n + 1);
        let q: i128 = -(m / d) - 1;
        proof {
            lemma_fundamental_div_mod(m as int, d as int);
            lemma_div_between(m as int, d as int);
            let r = d - 1 - (m as int) % (d as int);
            assert(n == q * d + r) by (nonlinear_arith)
                requires
                    m == d * (m / d) + (m as int) % (d as int),
                    q == -(m / d) - 1,
                    r == d - 1 - (m as int) % (d as int),
                    m == -(n + 1),
            ;
            lemma_fundamental_div_mod_converse(n as int, d as int, q as int, r);
        }
        q
    }
}

/// `n / d` rounded towards plus infinity.
pub fn ceil_div(n: i64, d: i64) -> (q: i64)
    requires
        d > 0,
    ensures
        q == div_ceil(n as int, d as int),
{
    let m: i128 = -(n as i128);
    let f: i128 = floor_div(m, d as i128);
    proof {
        lemma_div_between(m as int, d as int);
    }
    (-f) as i64
}

/// The exact product of two 64-bit values.
pub fn mul_wide(a: i64, b: i64) -> (p: i128)
    ensures
        p == a * b,
{
    assert(-0x4000_0000_0000_0000_0000_0000_0000_0000 < a * b
        <= 0x4000_0000_0000_0000_0000_0000_0000_0000) by (nonlinear_arith)
        requires
            -0x8000_0000_0000_0000 <= a < 0x8000_0000_0000_0000,
            -0x8000_0000_0000_0000 <= b < 0x8000_0000_0000_0000,
    ;
    (a as i128) * (b as i128)
}

/// The exact product of a value of at most 66 bits and `UNIT`.
pub(crate) fn mul_unit(n: i128) -> (p: i128)
    requires
        -0x4_0000_0000_0000_0000 <= n <= 0x4_0000_0000_0000_0000,
    ensures
        p == n * UNIT,
{
    assert(-0x4_0000_0000_0000_0000_0000 <= n * UNIT <= 0x4_0000_0000_0000_0000_0000)
        by (nonlinear_arith)
        requires
            -0x4_0000_0000_0000_0000 <= n <= 0x4_0000_0000_0000_0000,
            UNIT == 65536,
    ;
    n * (UNIT as i128)
}

/// A quotient by a positive divisor lies between zero and the dividend.
pub proof fn lemma_div_between(n: int, d: int)
    requires
        d > 0,
    ensures
        n >= 0 ==> 0 <= n / d <= n,
        n < 0 ==> n <= n / d < 0,
{
    lemma_fundamental_div_mod(n, d);
    let q = n / d;
    let r = n % d;
    assert(0 <= r < d);
    if n >= 0 {
        assert(0 <= q <= n) by (nonlinear_arith)
            requires
                n == d * q + r,
                0 <= r < d,
                n >= 0,
                d > 0,
        ;
    } else {
        assert(n <= q < 0) by (nonlinear_arith)
            requires
                n == d * q + r,
                0 <= r < d,
                n < 0,
                d > 0,
        ;
    }
}

/// Division by a positive divisor is monotone in the dividend.
pub proof fn lemma_div_monotone(a: int, b: int, d: int)
    requires
        d > 0,
        a <= b,
    ensures
        a / d <= b / d,
{
    lemma_fundamental_div_mod(a, d);
    lemma_fundamental_div_mod(b, d);
    let qa = a / d;
    let qb = b / d;
    let ra = a % d;
    let rb = b % d;
    assert(qa <= qb) by (nonlinear_arith)
        requires
            a == d * qa + ra,
            b == d * qb + rb,
            0 <= ra < d,
            0 <= rb < d,
            a <= b,
            d > 0,
    ;
}

/// The difference of two rounded quotients is the rounded quotient of the
/// difference, or one more.
pub proof fn lemma_div_of_difference(a: int, b: int, d: int)
    requires
        d > 0,
    ensures
        (b - a) / d <= b / d - a / d <= (b - a) / d + 1,
{
    lemma_fundamental_div_mod(a, d);
    lemma_fundamental_div_mod(b, d);
    lemma_fundamental_div_mod(b - a, d);
    let qa = a / d;
    let qb = b / d;
    let qd = (b - a) / d;
    let ra = a % d;
    let rb = b % d;
    let rd = (b - a) % d;
    assert(qd <= qb - qa <= qd + 1) by (nonlinear_arith)
        requires
            a == d * qa + ra,
            b == d * qb + rb,
            b - a == d * qd + rd,
            0 <= ra < d,
            0 <= rb < d,
            0 <= rd < d,
            d > 0,
    ;
}

/// A non-negative value divided by the larger of two divisors is not the
/// larger quotient.
pub proof fn lemma_div_antitone(v: int, small: int, large: int)
    requires
        v >= 0,
        0 < small <= large,
    ensures
        0 <= v / large <= v / small,
{
    lemma_fundamental_div_mod(v, small);
    lemma_fundamental_div_mod(v, large);
    let qs = v / small;
    let ql = v / large;
    let rs = v % small;
    let rl = v % large;
    assert(0 <= ql <= qs) by (nonlinear_arith)
        requires
            v == small * qs + rs,
            v == large * ql + rl,
            0 <= rs < small,
            0 <= rl < large,
            v >= 0,
            0 < small <= large,
    ;
}

/// Where the two exact quotients of a non-negative value lie at least one
/// apart, so do the rounded ones.
pub proof fn lemma_div_strictly_antitone(v: int, small: int, large: int)
    requires
        v >= 0,
        0 < small < large,
        v * (large - small) >= small * large,
    ensures
        0 <= v / large < v / small,
{
    lemma_fundamental_div_mod(v, small);
    lemma_fundamental_div_mod(v, large);
    let qs = v / small;
    let ql = v / large;
    let rs = v % small;
    let rl = v % large;
    assert(0 <= ql < qs) by (nonlinear_arith)
        requires
            v == small * qs + rs,
            v == large * ql + rl,
            0 <= rs < small,
            0 <= rl < large,
            v >= 0,
            0 < small < large,
            v * (large - small) >= small * large,
    ;
}

/// Scaling by `num / den` and then by `den / num` loses less than
/// `den / num + 1`, and never gains.
pub proof fn lemma_scale_there_and_back(v: int, num: int, den: int)
    requires
        num > 0,
        den > 0,
    ensures
        rounds_back(v, (v * num / den) * den / num, num, den),
{
    let q = v * num / den;
    let back = q * den / num;
    lemma_fundamental_div_mod(v * num, den);
    lemma_fundamental_div_mod(q * den, num);
    let r1 = (v * num) % den;
    let r2 = (q * den) % num;
    assert(back <= v && (v - back) * num < den + num) by (nonlinear_arith)
        requires
            v * num == den * q + r1,
            q * den == num * back + r2,
            0 <= r1 < den,
            0 <= r2 < num,
            num > 0,
            den > 0,
    ;
}

/// Scaling by a whole factor and then by its inverse loses nothing.
pub proof fn lemma_whole_factor_there_and_back(v: int, factor: int, unit: int)
    requires
        factor > 0,
        unit > 0,
    ensures
        v * (factor * unit) / unit == v * factor,
        (v * factor) * unit / (factor * unit) == v,
{
    let d = factor * unit;
    assert(d > 0) by (nonlinear_arith)
        requires
            d == factor * unit,
            factor > 0,
            unit > 0,
    ;
    assert(v * d == (v * factor) * unit + 0) by (nonlinear_arith)
        requires
            d == factor * unit,
    ;
    lemma_fundamental_div_mod_converse(v * d, unit, v * factor, 0);
    assert((v * factor) * unit == v * d + 0) by (nonlinear_arith)
        requires
            d == factor * unit,
    ;
    lemma_fundamental_div_mod_converse((v * factor) * unit, d, v, 0);
}

} // verus!
