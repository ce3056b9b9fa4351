//! The width of the time buckets in which stored measures are averaged
//! when a long range of them is asked for.
//!
//! The computation is carried in single-precision floating point; here it
//! is done with integers that follow IEEE 754 binary32 arithmetic exactly:
//! every intermediate value is rounded to the nearest number with a 24-bit
//! significand, ties to even.

use vstd::prelude::*;
use vstd::arithmetic::power2::{pow2, lemma_pow2_unfold, lemma_pow2_strictly_increases, lemma2_to64, lemma2_to64_rest};

verus! {

/// The number of low bits of `n` that lie below its 24 leading significant
/// bits.
pub open spec fn sig_shift(n: nat) -> nat
    decreases n,
{
    if n < 0x100_0000 {
        0
    } else {
        1 + sig_shift(n / 2)
    }
}

/// `n / 2^k`, rounded to the nearest integer, ties to the even one.
pub open spec fn round_even(n: nat, k: nat) -> nat {
    let p = pow2(k);
    let q = n / p;
    let r = n % p;
    if r * 2 > p || (r * 2 == p && q % 2 == 1) {
        q + 1
    } else {
        q
    }
}

/// The single-precision float nearest to `n * 2^e` (ties to even), for a
/// positive `n` whose result is a normal float: the pair `(m, e')` with
/// value `m * 2^e'`.
pub open spec fn nearest_f32(n: nat, e: int) -> (nat, int) {
    let k = sig_shift(n);
    (round_even(n, k), e + k)
}

/// The exact sum of `m * 2^e` and `c * 2^f`, as `(n, g)` with value `n * 2^g`.
pub open spec fn exact_sum(m: nat, e: int, c: nat, f: int) -> (nat, int) {
    if e >= f {
        (m * pow2((e - f) as nat) + c, f)
    } else {
        (m + c * pow2((f - e) as nat), e)
    }
}

/// The integer part of `m * 2^e`.
pub open spec fn integer_part(m: nat, e: int) -> nat {
    if e >= 0 {
        m * pow2(e as nat)
    } else {
        m / pow2((-e) as nat)
    }
}

/// The granularity of a series of `size` measures:
/// `(0.00192859 * size) * 1.00694 + 0.298206` computed in single precision
/// and cast to `u16` (negative results give 0). The three constants are the
/// floats `8283231 * 2^-32`, `8446825 * 2^-23` and `10006133 * 2^-25`.
pub open spec fn granularity_of(size: int) -> nat {
    if size <= 0 {
        0
    } else {
        let (m1, e1) = nearest_f32(size as nat, 0);
        let (m2, e2) = nearest_f32(8283231 * m1, e1 - 32);
        let (m3, e3) = nearest_f32(8446825 * m2, e2 - 23);
        let (n4, f4) = exact_sum(m3, e3, 10006133, -25);
        let (m4, e4) = nearest_f32(n4, f4);
        let v = integer_part(m4, e4);
        if v > 65535 {
            65535
        } else {
            v
        }
    }
}

proof fn lemma_pow2_mono(i: nat, j: nat)
    requires
        i <= j,
    ensures
        pow2(i) <= pow2(j),
{
    if i < j {
        lemma_pow2_strictly_increases(i, j);
    }
}

/// `n` below `2^(j + 24)` keeps at most `j` bits below its leading 24.
proof fn lemma_sig_shift_bound(n: nat, j: nat)
    requires
        n < pow2(j + 24),
    ensures
        sig_shift(n) <= j,
    decreases n,
{
    lemma2_to64();
    if n >= 0x100_0000 {
        if j == 0 {
            assert(false);
        } else {
            lemma_pow2_unfold(j + 24);
            assert((j - 1) as nat + 24 == (j + 24 - 1) as nat);
            lemma_sig_shift_bound(n / 2, (j - 1) as nat);
        }
    }
}

/// `2^k`, for `k` up to 64.
fn pow_two(k: u32) -> (p: u128)
    requires
        k <= 64,
    ensures
        p == pow2(k as nat),
{
    let mut p: u128 = 1;
    let mut i: u32 = 0;
    proof {
        lemma2_to64();
    }
    while i < k
        invariant
            i <= k <= 64,
            p == pow2(i as nat),
        decreases k - i,
    {
        proof {
            lemma_pow2_unfold((i + 1) as nat);
            lemma_pow2_mono((i + 1) as nat, 64);
            lemma2_to64();
        }
        p = p * 2;
        i = i + 1;
    }
    p
}

/// `n` rounded to 24 significant bits: `(m, k)` with `m = round_even(n, k)`
/// and `k = sig_shift(n)`.
fn round_sig24(n: u128) -> (r: (u128, u32))
    requires
        0 < n < 0x1_0000_0000_0000_0000,
    ensures
        r.1 == sig_shift(n as nat),
        r.0 == round_even(n as nat, r.1 as nat),
        r.1 <= 40,
        0 < r.0 <= 0x100_0000,
{
    let mut t: u128 = n;
    let mut k: u32 = 0;
    let mut p: u128 = 1;
    proof {
        lemma2_to64();
        lemma_sig_shift_bound(n as nat, 40);
    }
    while t >= 0x100_0000
        invariant
            0 < n < 0x1_0000_0000_0000_0000,
            p == pow2(k as nat),
            0 < p <= 0x100_0000_0000,
            k <= 40,
            t == n / p,
            t >= 1,
            sig_shift(n as nat) == k + sig_shift(t as nat),
            sig_shift(n as nat) <= 40,
        decreases t,
    {
        proof {
            assert(sig_shift(t as nat) >= 1);
            lemma_pow2_unfold((k + 1) as nat);
            vstd::arithmetic::div_mod::lemma_div_denominator(n as int, p as int, 2);
            lemma_pow2_mono((k + 1) as nat, 40);
            lemma2_to64();
            lemma2_to64_rest();
        }
        t = t / 2;
        k = k + 1;
        p = p * 2;
    }
    let q = n / p;
    let r = n % p;
    let m = if r * 2 > p || (r * 2 == p && q % 2 == 1) {
        q + 1
    } else {
        q
    };
    (m, k)
}

/// The granularity of a series of `size` measures, the width of the time
/// buckets it is averaged in: `(0.00192859 * size) * 1.00694 + 0.298206`
/// evaluated in single precision and cast to `u16`, which gives 0 for 300
/// measures, 2 for 900, 3 for 1800, 14 for 7200 and 42 for 21600. A size of
/// 30000000 or more is refused by the server with a panic.
pub fn get_granularity(size: i64) -> (r: u16)
    requires
        size < 30000000,
    ensures
        r as nat == granularity_of(size as int),
{
    if size <= 0 {
        return 0;
    }
    proof {
        lemma2_to64();
        lemma2_to64_rest();
        lemma_sig_shift_bound(size as nat, 1);
    }
    let (m1, k1) = round_sig24(size as u128);
    assert(8283231 * m1 <= 8283231 * 0x100_0000) by (nonlinear_arith)
        requires
            m1 <= 0x100_0000,
    ;
    let n2: u128 = 8283231 * m1;
    proof {
        lemma_sig_shift_bound(n2 as nat, 23);
    }
    let (m2, k2) = round_sig24(n2);
    assert(8446825 * m2 <= 8446825 * 0x100_0000) by (nonlinear_arith)
        requires
            m2 <= 0x100_0000,
    ;
    let n3: u128 = 8446825 * m2;
    proof {
        lemma_sig_shift_bound(n3 as nat, 24);
    }
    let (m3, k3) = round_sig24(n3);
    let e3: i64 = k1 as i64 + k2 as i64 + k3 as i64 - 55;
    let (n4, f4): (u128, i64) = if e3 >= -25 {
        let sh = pow_two((e3 + 25) as u32);
        proof {
            lemma_pow2_mono((e3 + 25) as nat, 18);
        }
        assert(m3 * sh <= 0x100_0000 * 0x4_0000) by (nonlinear_arith)
            requires
                m3 <= 0x100_0000,
                sh <= 0x4_0000,
        ;
        (m3 * sh + 10006133, -25)
    } else {
        let sh = pow_two((-25 - e3) as u32);
        proof {
            lemma_pow2_mono((-25 - e3) as nat, 30);
        }
        assert(10006133 * sh <= 10006133 * 0x4000_0000) by (nonlinear_arith)
            requires
                sh <= 0x4000_0000,
        ;
        (m3 + 10006133 * sh, e3)
    };
    let (m4, k4) = round_sig24(n4);
    let e4: i64 = f4 + k4 as i64;
    let v: u128 = if e4 >= 0 {
        let sh = pow_two(e4 as u32);
        proof {
            lemma_pow2_mono(e4 as nat, 40);
        }
        assert(m4 * sh <= 0x100_0000 * 0x100_0000_0000) by (nonlinear_arith)
            requires
                m4 <= 0x100_0000,
                sh <= 0x100_0000_0000,
        ;
        m4 * sh
    } else {
        let sh = pow_two((-e4) as u32);
        proof {
            vstd::arithmetic::power2::lemma_pow2_pos((-e4) as nat);
        }
        m4 / sh
    };
    if v > 65535 {
        65535
    } else {
        v as u16
    }
}

/// The single-precision float nearest to `n` (ties to even), as an integer.
pub open spec fn rounded(n: nat) -> nat {
    round_even(n, sig_shift(n)) * pow2(sig_shift(n))
}

/// Rounding to a fixed number of low bits keeps order.
proof fn lemma_round_fixed_mono(n: nat, n2: nat, k: nat)
    requires
        n <= n2,
    ensures
        round_even(n, k) <= round_even(n2, k),
{
    let p = pow2(k);
    vstd::arithmetic::power2::lemma_pow2_pos(k);
    vstd::arithmetic::div_mod::lemma_div_is_ordered(n as int, n2 as int, p as int);
    vstd::arithmetic::div_mod::lemma_fundamental_div_mod(n as int, p as int);
    vstd::arithmetic::div_mod::lemma_fundamental_div_mod(n2 as int, p as int);
    vstd::arithmetic::div_mod::lemma_mod_bound(n as int, p as int);
    vstd::arithmetic::div_mod::lemma_mod_bound(n2 as int, p as int);
    let q = n / p;
    let q2 = n2 / p;
    if q == q2 {
        assert(n % p <= n2 % p);
    }
}

/// A larger number keeps at least as many bits below its leading 24.
proof fn lemma_sig_shift_mono(n: nat, n2: nat)
    requires
        n <= n2,
    ensures
        sig_shift(n) <= sig_shift(n2),
    decreases n2,
{
    if n >= 0x100_0000 {
        lemma_sig_shift_mono(n / 2, n2 / 2);
    }
}

/// With `k = sig_shift(n)`: `n < 2^(k + 24)`, and `n >= 2^(k + 23)` when
/// `k > 0`.
proof fn lemma_sig_shift_range(n: nat)
    ensures
        n < pow2(sig_shift(n)) * 0x100_0000,
        sig_shift(n) > 0 ==> n >= pow2(sig_shift(n)) * 0x80_0000,
    decreases n,
{
    lemma2_to64();
    if n >= 0x100_0000 {
        lemma_sig_shift_range(n / 2);
        lemma_pow2_unfold(sig_shift(n));
        assert(sig_shift(n) == 1 + sig_shift(n / 2));
    }
}

/// The rounded significand lies in `[2^23, 2^24]` once bits are dropped.
proof fn lemma_round_range(n: nat)
    ensures
        round_even(n, sig_shift(n)) <= 0x100_0000,
        sig_shift(n) > 0 ==> round_even(n, sig_shift(n)) >= 0x80_0000,
{
    let k = sig_shift(n);
    let p = pow2(k);
    vstd::arithmetic::power2::lemma_pow2_pos(k);
    lemma_sig_shift_range(n);
    vstd::arithmetic::div_mod::lemma_div_by_multiple_is_strongly_ordered(
        n as int,
        (0x100_0000 * p) as int,
        0x100_0000,
        p as int,
    );
    vstd::arithmetic::div_mod::lemma_div_multiples_vanish(0x100_0000, p as int);
    if k > 0 {
        vstd::arithmetic::div_mod::lemma_div_is_ordered((0x80_0000 * p) as int, n as int, p as int);
        vstd::arithmetic::div_mod::lemma_div_multiples_vanish(0x80_0000, p as int);
    }
}

/// Rounding to the nearest float keeps order.
proof fn lemma_rounded_mono(n: nat, n2: nat)
    requires
        n <= n2,
    ensures
        rounded(n) <= rounded(n2),
{
    let k = sig_shift(n);
    let k2 = sig_shift(n2);
    lemma_sig_shift_mono(n, n2);
    vstd::arithmetic::power2::lemma_pow2_pos(k);
    vstd::arithmetic::power2::lemma_pow2_pos(k2);
    if k == k2 {
        lemma_round_fixed_mono(n, n2, k);
        vstd::arithmetic::mul::lemma_mul_inequality(
            round_even(n, k) as int,
            round_even(n2, k) as int,
            pow2(k) as int,
        );
    } else {
        lemma_round_range(n);
        lemma_round_range(n2);
        lemma_pow2_unfold(k + 1);
        lemma_pow2_mono(k + 1, k2);
        vstd::arithmetic::mul::lemma_mul_inequality(round_even(n, k) as int, 0x100_0000, pow2(k) as int);
        vstd::arithmetic::mul::lemma_mul_inequality(0x80_0000, round_even(n2, k2) as int, pow2(k2) as int);
        vstd::arithmetic::mul::lemma_mul_inequality(2 * pow2(k) as int, pow2(k2) as int, 0x80_0000);
    }
}

/// Rounding commutes with doubling.
proof fn lemma_rounded_double(a: nat)
    ensures
        rounded(2 * a) == 2 * rounded(a),
{
    lemma2_to64();
    if a < 0x100_0000 {
        assert(sig_shift(a) == 0);
        assert(a / 1 == a && a % 1 == 0);
        assert(round_even(a, 0) == a);
        assert(rounded(a) == a) by (nonlinear_arith)
            requires
                rounded(a) == round_even(a, 0) * pow2(0),
                round_even(a, 0) == a,
                pow2(0) == 1,
        ;
        if a < 0x80_0000 {
            assert(sig_shift(2 * a) == 0);
            assert((2 * a) / 1 == 2 * a && (2 * a) % 1 == 0);
            assert(round_even(2 * a, 0) == 2 * a);
            assert(rounded(2 * a) == 2 * a) by (nonlinear_arith)
                requires
                    rounded(2 * a) == round_even(2 * a, 0) * pow2(0),
                    round_even(2 * a, 0) == 2 * a,
                    pow2(0) == 1,
            ;
        } else {
            assert((2 * a) / 2 == a);
            assert(sig_shift(2 * a) == 1);
            assert((2 * a) % 2 == 0);
            assert(round_even(2 * a, 1) == a);
            assert(rounded(2 * a) == 2 * a) by (nonlinear_arith)
                requires
                    rounded(2 * a) == round_even(2 * a, 1) * pow2(1),
                    round_even(2 * a, 1) == a,
                    pow2(1) == 2,
            ;
        }
    } else {
        let k = sig_shift(a);
        let p = pow2(k);
        assert((2 * a) / 2 == a);
        assert(sig_shift(2 * a) == k + 1);
        lemma_pow2_unfold(k + 1);
        vstd::arithmetic::power2::lemma_pow2_pos(k);
        let q = a / p;
        let r = a % p;
        let q2 = (2 * a) / (2 * p);
        let r2 = (2 * a) % (2 * p);
        vstd::arithmetic::div_mod::lemma_div_multiples_vanish_quotient(2, a as int, p as int);
        vstd::arithmetic::div_mod::lemma_fundamental_div_mod(a as int, p as int);
        vstd::arithmetic::div_mod::lemma_fundamental_div_mod((2 * a) as int, (2 * p) as int);
        vstd::arithmetic::div_mod::lemma_mod_bound(a as int, p as int);
        assert(q2 == q);
        assert((2 * p) * q == 2 * (p * q)) by (nonlinear_arith);
        assert(r2 == 2 * r);
        assert(round_even(2 * a, k + 1) == round_even(a, k));
        let m = round_even(a, k);
        assert(m * pow2(k + 1) == 2 * (m * p)) by (nonlinear_arith)
            requires
                pow2(k + 1) == 2 * p,
        ;
    }
}

/// Rounding commutes with scaling by a power of two.
proof fn lemma_rounded_scale(a: nat, j: nat)
    ensures
        rounded(a * pow2(j)) == rounded(a) * pow2(j),
    decreases j,
{
    lemma2_to64();
    if j == 0 {
        assert(a * pow2(j) == a && rounded(a) * pow2(j) == rounded(a)) by (nonlinear_arith)
            requires
                pow2(j) == 1,
        ;
    } else {
        let j1 = (j - 1) as nat;
        lemma_rounded_scale(a, j1);
        lemma_pow2_unfold(j);
        let x = a * pow2(j1);
        assert(a * pow2(j) == 2 * x) by (nonlinear_arith)
            requires
                pow2(j) == 2 * pow2(j1),
                x == a * pow2(j1),
        ;
        lemma_rounded_double(x);
        assert(2 * (rounded(a) * pow2(j1)) == rounded(a) * pow2(j)) by (nonlinear_arith)
            requires
                pow2(j) == 2 * pow2(j1),
        ;
    }
}

/// The float nearest to `n * 2^e`, scaled by `2^s`, is the rounding of
/// `n * 2^(e + s)`.
proof fn lemma_nearest_scaled(n: nat, e: int, s: int)
    requires
        e + s >= 0,
    ensures
        nearest_f32(n, e).1 >= e,
        nearest_f32(n, e).0 * pow2((nearest_f32(n, e).1 + s) as nat) == rounded(n * pow2((e + s) as nat)),
{
    let k = sig_shift(n);
    let t = (e + s) as nat;
    vstd::arithmetic::power2::lemma_pow2_adds(k, t);
    assert((nearest_f32(n, e).1 + s) as nat == k + t);
    lemma_rounded_scale(n, t);
    let m = round_even(n, k);
    assert(m * (pow2(k) * pow2(t)) == (m * pow2(k)) * pow2(t)) by (nonlinear_arith);
}

/// The exact sum, scaled by `2^s`.
proof fn lemma_exact_sum_scaled(m: nat, e: int, c: nat, f: int, s: int)
    requires
        e + s >= 0,
        f + s >= 0,
    ensures
        exact_sum(m, e, c, f).1 + s >= 0,
        exact_sum(m, e, c, f).1 >= e || exact_sum(m, e, c, f).1 >= f,
        exact_sum(m, e, c, f).1 == e || exact_sum(m, e, c, f).1 == f,
        exact_sum(m, e, c, f).0 * pow2((exact_sum(m, e, c, f).1 + s) as nat) == m * pow2((e + s) as nat) + c
            * pow2((f + s) as nat),
{
    if e >= f {
        let d = (e - f) as nat;
        let t = (f + s) as nat;
        vstd::arithmetic::power2::lemma_pow2_adds(d, t);
        assert((d + t) as nat == (e + s) as nat);
        assert((m * pow2(d) + c) * pow2(t) == m * (pow2(d) * pow2(t)) + c * pow2(t)) by (nonlinear_arith);
    } else {
        let d = (f - e) as nat;
        let t = (e + s) as nat;
        vstd::arithmetic::power2::lemma_pow2_adds(d, t);
        assert((d + t) as nat == (f + s) as nat);
        assert((m + c * pow2(d)) * pow2(t) == m * pow2(t) + c * (pow2(d) * pow2(t))) by (nonlinear_arith);
    }
}

/// The integer part of `m * 2^e` from its value scaled by `2^s`.
proof fn lemma_integer_part_scaled(m: nat, e: int, s: nat)
    requires
        e + s >= 0,
    ensures
        integer_part(m, e) == (m * pow2((e + s) as nat)) / pow2(s),
{
    let t = (e + s) as nat;
    vstd::arithmetic::power2::lemma_pow2_pos(t);
    vstd::arithmetic::power2::lemma_pow2_pos(s);
    if e >= 0 {
        let u = e as nat;
        vstd::arithmetic::power2::lemma_pow2_adds(u, s);
        assert(m * pow2(t) == (m * pow2(u)) * pow2(s)) by (nonlinear_arith)
            requires
                pow2(t) == pow2(u) * pow2(s),
        ;
        vstd::arithmetic::div_mod::lemma_div_by_multiple((m * pow2(u)) as int, pow2(s) as int);
    } else {
        let u = (-e) as nat;
        vstd::arithmetic::power2::lemma_pow2_adds(u, t);
        assert(u + t == s);
        vstd::arithmetic::power2::lemma_pow2_pos(u);
        vstd::arithmetic::div_mod::lemma_div_multiples_vanish_quotient(pow2(t) as int, m as int, pow2(u) as int);
        assert(pow2(t) * m == m * pow2(t)) by (nonlinear_arith);
        assert(pow2(t) * pow2(u) == pow2(s)) by (nonlinear_arith)
            requires
                pow2(s) == pow2(u) * pow2(t),
        ;
    }
}

/// The granularity of a positive size, from the integer roundings of its
/// steps, all scaled by `2^55`.
pub open spec fn scaled_granularity(size: nat) -> nat {
    let b = rounded(8283231 * rounded(size));
    let d = rounded(rounded(8446825 * b) + 10006133 * pow2(30));
    let v = d / pow2(55);
    if v > 65535 {
        65535
    } else {
        v
    }
}

/// For a positive size, `granularity_of` is `scaled_granularity`.
proof fn lemma_granularity_scaled(size: int)
    requires
        size > 0,
    ensures
        granularity_of(size) == scaled_granularity(size as nat),
{
    let n = size as nat;
    let (m1, e1) = nearest_f32(n, 0);
    lemma_nearest_scaled(n, 0, 0);
    assert(pow2(0) == 1) by {
        lemma2_to64();
    }
    assert(n * pow2(0) == n) by (nonlinear_arith)
        requires
            pow2(0) == 1,
    ;
    let (m2, e2) = nearest_f32(8283231 * m1, e1 - 32);
    lemma_nearest_scaled(8283231 * m1, e1 - 32, 32);
    assert(8283231 * m1 * pow2(e1 as nat) == 8283231 * (m1 * pow2(e1 as nat))) by (nonlinear_arith);
    let b = m2 * pow2((e2 + 32) as nat);
    let (m3, e3) = nearest_f32(8446825 * m2, e2 - 23);
    lemma_nearest_scaled(8446825 * m2, e2 - 23, 55);
    assert((e2 - 23 + 55) as nat == (e2 + 32) as nat);
    assert(8446825 * m2 * pow2((e2 + 32) as nat) == 8446825 * b) by (nonlinear_arith)
        requires
            b == m2 * pow2((e2 + 32) as nat),
    ;
    let (n4, f4) = exact_sum(m3, e3, 10006133, -25);
    lemma_exact_sum_scaled(m3, e3, 10006133, -25, 55);
    let (m4, e4) = nearest_f32(n4, f4);
    lemma_nearest_scaled(n4, f4, 55);
    lemma_integer_part_scaled(m4, e4, 55);
}

/// The granularity grows with the size: a longer series of measures is
/// never averaged in narrower buckets.
pub proof fn lemma_granularity_monotone(a: int, b: int)
    requires
        a <= b,
    ensures
        granularity_of(a) <= granularity_of(b),
{
    if a > 0 {
        lemma_granularity_scaled(a);
        lemma_granularity_scaled(b);
        let x = a as nat;
        let y = b as nat;
        lemma_rounded_mono(x, y);
        lemma_rounded_mono(8283231 * rounded(x), 8283231 * rounded(y));
        let rx = rounded(8283231 * rounded(x));
        let ry = rounded(8283231 * rounded(y));
        lemma_rounded_mono(8446825 * rx, 8446825 * ry);
        lemma_rounded_mono(rounded(8446825 * rx) + 10006133 * pow2(30), rounded(8446825 * ry) + 10006133 * pow2(30));
        vstd::arithmetic::power2::lemma_pow2_pos(55);
        vstd::arithmetic::div_mod::lemma_div_is_ordered(
            rounded(rounded(8446825 * rx) + 10006133 * pow2(30)) as int,
            rounded(rounded(8446825 * ry) + 10006133 * pow2(30)) as int,
            pow2(55) as int,
        );
    }
}

} // verus!
