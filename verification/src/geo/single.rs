//! Single-precision numbers as their IEEE-754 bit patterns: what each
//! pattern stands for, how two of them compare, and how a sum is rounded.
//!
//! Magnitudes are counted in units of `2^-149`, the smallest positive
//! single-precision number, so that every finite number is an integer.

use vstd::arithmetic::power2::lemma_pow2_adds;
use vstd::arithmetic::power2::lemma_pow2_pos;
use vstd::arithmetic::power2::lemma_pow2_strictly_increases;
use vstd::arithmetic::power2::lemma_pow2_unfold;
use vstd::arithmetic::power2::pow2;
use vstd::prelude::*;

verus! {

/// The bit pattern of positive infinity.
pub const INFINITY: u32 = 0x7f80_0000;

/// The bit pattern of `2^-16`, the tolerance of approximate equality.
pub const TOLERANCE: u32 = 0x3780_0000;

/// The pattern without its sign bit.
pub open spec fn magnitude_bits(x: u32) -> int {
    x as int % 0x8000_0000
}

pub open spec fn is_negative(x: u32) -> bool {
    x >= 0x8000_0000
}

/// The pattern is not a number.
pub open spec fn is_nan(x: u32) -> bool {
    magnitude_bits(x) > INFINITY
}

/// The pattern is a number other than an infinity.
pub open spec fn is_finite(x: u32) -> bool {
    magnitude_bits(x) < INFINITY
}

/// The eight exponent bits.
pub open spec fn exponent_field(x: u32) -> int {
    magnitude_bits(x) / 0x80_0000
}

/// The twenty-three fraction bits.
pub open spec fn fraction_field(x: u32) -> int {
    magnitude_bits(x) % 0x80_0000
}

/// The significand as an integer below `2^24`: the fraction, with the
/// hidden bit above it unless the number is subnormal.
pub open spec fn significand(x: u32) -> nat {
    if exponent_field(x) == 0 {
        fraction_field(x) as nat
    } else {
        (0x80_0000 + fraction_field(x)) as nat
    }
}

/// The power of two that the significand is multiplied by, in units of
/// `2^-149`.
pub open spec fn shift(x: u32) -> nat {
    if exponent_field(x) == 0 {
        0
    } else {
        (exponent_field(x) - 1) as nat
    }
}

/// The magnitude in units of `2^-149`. An infinity counts as `2^277`, the
/// first magnitude beyond the finite ones.
pub open spec fn magnitude(x: u32) -> nat {
    significand(x) * pow2(shift(x))
}

/// The number in units of `2^-149`.
pub open spec fn value(x: u32) -> int {
    if is_negative(x) {
        -(magnitude(x) as int)
    } else {
        magnitude(x) as int
    }
}

/// `a < b` as numbers; false where either is not a number.
pub open spec fn less(a: u32, b: u32) -> bool {
    !is_nan(a) && !is_nan(b) && value(a) < value(b)
}

/// `a == b` as numbers; false where either is not a number. The two zeros
/// are equal.
pub open spec fn equal(a: u32, b: u32) -> bool {
    !is_nan(a) && !is_nan(b) && value(a) == value(b)
}

proof fn lemma_pow2_le(a: nat, b: nat)
    requires
        a <= b,
    ensures
        pow2(a) <= pow2(b),
        pow2(a) > 0,
{
    lemma_pow2_pos(a);
    if a < b {
        lemma_pow2_strictly_increases(a, b);
    }
}

/// Among the patterns without a sign, a larger pattern is a larger
/// magnitude.
pub proof fn lemma_magnitude_increases(a: u32, b: u32)
    requires
        magnitude_bits(a) < magnitude_bits(b),
    ensures
        magnitude(a) < magnitude(b),
{
    let ea = exponent_field(a);
    let eb = exponent_field(b);
    let fa = fraction_field(a);
    let fb = fraction_field(b);
    let pa = pow2(shift(a));
    let pb = pow2(shift(b));
    lemma_pow2_pos(shift(a));
    lemma_pow2_pos(shift(b));
    if ea == eb {
        assert(fa < fb);
        assert(significand(a) * pa < significand(b) * pa) by (nonlinear_arith)
            requires
                significand(a) < significand(b),
                pa > 0,
        ;
    } else {
        assert(ea < eb);
        assert(0x80_0000 * pb <= significand(b) * pb) by (nonlinear_arith)
            requires
                0x80_0000 <= significand(b),
                pb > 0,
        ;
        if ea == 0 {
            assert(pa == 1) by {
                vstd::arithmetic::power2::lemma2_to64();
            }
            assert(0x80_0000 * 1 <= 0x80_0000 * pb) by (nonlinear_arith)
                requires
                    pb >= 1,
            ;
            assert(significand(a) * pa == significand(a)) by (nonlinear_arith)
                requires
                    pa == 1,
            ;
        } else {
            lemma_pow2_unfold((shift(a) + 1) as nat);
            lemma_pow2_le((shift(a) + 1) as nat, shift(b));
            let pn = pow2((shift(a) + 1) as nat);
            assert(significand(a) * pa < 0x80_0000 * pn) by (nonlinear_arith)
                requires
                    significand(a) < 0x100_0000,
                    pn == 2 * pa,
                    pa > 0,
            ;
            assert(0x80_0000 * pn <= 0x80_0000 * pb) by (nonlinear_arith)
                requires
                    pn <= pb,
            ;
        }
    }
}

/// Patterns that differ only in their sign have one magnitude.
pub proof fn lemma_magnitude_of_bits(a: u32, b: u32)
    requires
        magnitude_bits(a) == magnitude_bits(b),
    ensures
        magnitude(a) == magnitude(b),
{
}

/// The pattern without its sign bit.
pub fn abs_bits(x: u32) -> (r: u32)
    ensures
        r == magnitude_bits(x),
        magnitude(r) == magnitude(x),
        !is_negative(r),
{
    x % 0x8000_0000
}

pub fn nan(x: u32) -> (r: bool)
    ensures
        r == is_nan(x),
{
    x % 0x8000_0000 > INFINITY
}

pub fn finite(x: u32) -> (r: bool)
    ensures
        r == is_finite(x),
{
    x % 0x8000_0000 < INFINITY
}

/// `a < b` as numbers.
pub fn lt(a: u32, b: u32) -> (r: bool)
    ensures
        r == less(a, b),
{
    if nan(a) || nan(b) {
        return false;
    }
    let ma: u32 = abs_bits(a);
    let mb: u32 = abs_bits(b);
    proof {
        if ma < mb {
            lemma_magnitude_increases(a, b);
        } else if mb < ma {
            lemma_magnitude_increases(b, a);
        } else {
            lemma_magnitude_of_bits(a, b);
        }
        lemma_zero_magnitude(a);
        lemma_zero_magnitude(b);
    }
    let na: bool = a >= 0x8000_0000;
    let nb: bool = b >= 0x8000_0000;
    if na {
        if nb {
            mb < ma
        } else {
            // a <= 0 <= b: less unless both are zero
            ma != 0 || mb != 0
        }
    } else {
        if nb {
            false
        } else {
            ma < mb
        }
    }
}

/// `a > b` as numbers.
pub fn gt(a: u32, b: u32) -> (r: bool)
    ensures
        r == less(b, a),
{
    lt(b, a)
}

/// `a == b` as numbers.
pub fn eq(a: u32, b: u32) -> (r: bool)
    ensures
        r == equal(a, b),
{
    if nan(a) || nan(b) {
        return false;
    }
    let ma: u32 = abs_bits(a);
    let mb: u32 = abs_bits(b);
    proof {
        if ma < mb {
            lemma_magnitude_increases(a, b);
        } else if mb < ma {
            lemma_magnitude_increases(b, a);
        } else {
            lemma_magnitude_of_bits(a, b);
        }
        lemma_zero_magnitude(a);
        lemma_zero_magnitude(b);
    }
    if ma == 0 && mb == 0 {
        true
    } else {
        a == b
    }
}

/// Only the two zeros have magnitude zero.
pub proof fn lemma_zero_magnitude(x: u32)
    ensures
        magnitude(x) == 0 <==> magnitude_bits(x) == 0,
{
    let zero: u32 = 0;
    assert(significand(zero) == 0);
    assert(magnitude(zero) == 0) by (nonlinear_arith)
        requires
            magnitude(zero) == significand(zero) * pow2(shift(zero)),
            significand(zero) == 0,
    ;
    if magnitude_bits(x) > 0 {
        lemma_magnitude_increases(zero, x);
    } else {
        lemma_magnitude_of_bits(zero, x);
    }
}

/// The distance between neighbouring single-precision numbers at magnitude
/// `n`: the least power of two `u` that leaves `n / u` below `2^24`.
pub open spec fn spacing(n: nat) -> nat
    decreases n,
{
    if n < 0x100_0000 {
        1
    } else {
        2 * spacing(n / 2)
    }
}

/// `n` rounded to a single-precision magnitude: the nearest multiple of the
/// spacing at `n`, and of two equally near ones the even multiple. A result
/// of `2^277` or more stands for an overflow to infinity.
pub open spec fn rounded(n: nat) -> nat {
    let u = spacing(n);
    let q = n / u;
    let r = n % u;
    if 2 * r < u || (2 * r == u && q % 2 == 0) {
        q * u
    } else {
        (q + 1) * u
    }
}

pub proof fn lemma_spacing_pos(n: nat)
    ensures
        spacing(n) > 0,
    decreases n,
{
    if n >= 0x100_0000 {
        lemma_spacing_pos(n / 2);
    }
}

/// Between `2^23 * 2^k` and `2^24 * 2^k` the spacing is `2^k`.
pub proof fn lemma_spacing(n: nat, k: nat)
    requires
        0x80_0000 * pow2(k) <= n < 0x100_0000 * pow2(k),
    ensures
        spacing(n) == pow2(k),
    decreases k,
{
    if k == 0 {
        assert(pow2(0) == 1) by {
            vstd::arithmetic::power2::lemma2_to64();
        }
    } else {
        lemma_pow2_unfold(k);
        lemma_pow2_pos((k - 1) as nat);
        let p = pow2((k - 1) as nat);
        assert(0x80_0000 * (2 * p) == 2 * (0x80_0000 * p)) by (nonlinear_arith);
        assert(0x100_0000 * (2 * p) == 2 * (0x100_0000 * p)) by (nonlinear_arith);
        assert(0x100_0000 <= 0x80_0000 * (2 * p)) by (nonlinear_arith)
            requires
                p >= 1,
        ;
        lemma_spacing(n / 2, (k - 1) as nat);
    }
}

/// A magnitude below `2^24` is a single-precision magnitude as it stands.
pub proof fn lemma_rounded_small(n: nat)
    requires
        n < 0x100_0000,
    ensures
        rounded(n) == n,
{
    assert(spacing(n) == 1);
    assert(n / 1 == n);
    assert(n % 1 == 0);
    assert(n * 1 == n);
}

/// Doubling a magnitude doubles what it is rounded to.
pub proof fn lemma_rounded_double(n: nat)
    ensures
        rounded(2 * n) == 2 * rounded(n),
{
    if n < 0x80_0000 {
        lemma_rounded_small(2 * n);
        lemma_rounded_small(n);
    } else if n < 0x100_0000 {
        lemma_rounded_small(n);
        assert((2 * n) / 2 == n);
        assert(spacing(2 * n) == 2 * spacing(((2 * n) / 2) as nat));
        assert(spacing(n) == 1);
        assert(spacing(2 * n) == 2);
        assert((2 * n) % 2 == 0);
        assert(n * 2 == 2 * n);
    } else {
        let u = spacing(n);
        lemma_spacing_pos(n);
        assert((2 * n) / 2 == n);
        assert(spacing(2 * n) == 2 * u);
        let q = n / u;
        let r = n % u;
        vstd::arithmetic::div_mod::lemma_fundamental_div_mod(n as int, u as int);
        assert(n == u * q + r);
        assert(2 * n == q * (2 * u) + 2 * r) by (nonlinear_arith)
            requires
                n == u * q + r,
        ;
        vstd::arithmetic::div_mod::lemma_fundamental_div_mod_converse(
            (2 * n) as int,
            (2 * u) as int,
            q as int,
            (2 * r) as int,
        );
        assert((2 * n) / (2 * u) == q);
        assert((2 * n) % (2 * u) == 2 * r);
        assert(q * (2 * u) == 2 * (q * u)) by (nonlinear_arith);
        assert((q + 1) * (2 * u) == 2 * ((q + 1) * u)) by (nonlinear_arith);
    }
}

/// Rounding commutes with a scaling by a power of two.
pub proof fn lemma_rounded_scales(n: nat, k: nat)
    ensures
        rounded(n * pow2(k)) == rounded(n) * pow2(k),
    decreases k,
{
    if k == 0 {
        assert(pow2(0) == 1) by {
            vstd::arithmetic::power2::lemma2_to64();
        }
        assert(n * 1 == n);
        assert(rounded(n) * 1 == rounded(n));
    } else {
        lemma_pow2_unfold(k);
        let p = pow2((k - 1) as nat);
        lemma_rounded_scales(n, (k - 1) as nat);
        lemma_rounded_double(n * p);
        assert(n * (2 * p) == 2 * (n * p)) by (nonlinear_arith);
        assert(rounded(n) * (2 * p) == 2 * (rounded(n) * p)) by (nonlinear_arith);
    }
}

/// `n` rounded to a single-precision magnitude.
pub fn round(n: u64) -> (r: u64)
    requires
        n < 0x400_0000_0000_0000,
    ensures
        r == rounded(n as nat),
        r <= 0x800_0000_0000_0000,
{
    let mut u: u64 = 1;
    let mut q: u64 = n;
    assert(spacing(n as nat) == 1 * spacing(n as nat));
    while q >= 0x100_0000
        invariant
            n < 0x400_0000_0000_0000,
            0 < u <= 0x8_0000_0000,
            q == n as int / u as int,
            u * q <= n,
            spacing(n as nat) == u * spacing(q as nat),
        decreases q,
    {
        proof {
            vstd::arithmetic::div_mod::lemma_div_denominator(n as int, u as int, 2);
            assert(u * 0x100_0000 <= u * q) by (nonlinear_arith)
                requires
                    q >= 0x100_0000,
                    u > 0,
            ;
            assert((2 * u) * (q / 2) <= u * q) by (nonlinear_arith)
                requires
                    q >= 0,
                    u > 0,
            ;
            assert(spacing(q as nat) == 2 * spacing((q / 2) as nat));
            assert(u * (2 * spacing((q / 2) as nat)) == (2 * u) * spacing((q / 2) as nat))
                by (nonlinear_arith);
        }
        q = q / 2;
        u = u * 2;
    }
    proof {
        assert(spacing(q as nat) == 1);
        assert(u * 1 == u);
        vstd::arithmetic::div_mod::lemma_fundamental_div_mod(n as int, u as int);
        assert((q + 1) * u <= 0x100_0000 * 0x8_0000_0000) by (nonlinear_arith)
            requires
                0 <= q + 1 <= 0x100_0000,
                0 < u <= 0x8_0000_0000,
        ;
        assert(q * u <= (q + 1) * u) by (nonlinear_arith)
            requires
                u > 0,
                q >= 0,
        ;
        assert(u * (n as int / u as int) == q * u) by (nonlinear_arith)
            requires
                q == n as int / u as int,
        ;
    }
    let r: u64 = n - q * u;
    if 2 * r < u || (2 * r == u && q % 2 == 0) {
        q * u
    } else {
        (q + 1) * u
    }
}

/// The bit pattern of the largest finite number.
pub const MAX: u32 = 0x7f7f_ffff;

/// What `|a - b|` is compared with: the tolerance itself, or the tolerance
/// times `norm` where that is more. The tolerance is `2^-16`; a product
/// beyond it is a single-precision number as it stands, so the quotient
/// below is that product whenever it counts.
pub open spec fn threshold(norm: nat) -> nat {
    if norm / 0x1_0000 > magnitude(TOLERANCE) {
        norm / 0x1_0000
    } else {
        magnitude(TOLERANCE)
    }
}

/// `|a - b|`, exactly.
pub open spec fn distance(a: u32, b: u32) -> nat {
    if value(a) >= value(b) {
        (value(a) - value(b)) as nat
    } else {
        (value(b) - value(a)) as nat
    }
}

/// `|a| + |b|` as single-precision arithmetic gives it, with the largest
/// finite number in place of an overflow.
pub open spec fn norm(a: u32, b: u32) -> nat {
    let sum = rounded(magnitude(a) + magnitude(b));
    if sum < magnitude(MAX) {
        sum
    } else {
        magnitude(MAX)
    }
}

/// `a` and `b` are equal, or so near each other that in single-precision
/// arithmetic `|a - b| < max(2^-16, 2^-16 * (|a| + |b|))`. Every operation
/// rounds to nearest, ties to even. No number is near a NaN, and nothing but
/// itself is near an infinity.
pub open spec fn approx_equal(a: u32, b: u32) -> bool {
    equal(a, b) || (is_finite(a) && is_finite(b) && rounded(distance(a, b)) < threshold(
        norm(a, b),
    ))
}

/// Approximate equality does not depend on the order of the two numbers.
pub proof fn lemma_approx_equal_symmetric(a: u32, b: u32)
    ensures
        approx_equal(a, b) == approx_equal(b, a),
{
}

/// The significand and the shift of a pattern.
fn decode(x: u32) -> (r: (u64, u32))
    ensures
        r.0 == significand(x),
        r.1 == shift(x),
        r.0 < 0x100_0000,
        r.1 <= 254,
        is_finite(x) ==> r.1 <= 253,
        r.1 > 0 ==> r.0 >= 0x80_0000,
{
    let bits: u32 = x % 0x8000_0000;
    let field: u32 = bits / 0x80_0000;
    let fraction: u32 = bits % 0x80_0000;
    if field == 0 {
        (fraction as u64, 0)
    } else {
        (0x80_0000 + fraction as u64, field - 1)
    }
}

/// `2^k`.
fn power_of_two(k: u32) -> (r: u128)
    requires
        k < 64,
    ensures
        r == pow2(k as nat),
        0 < r < 0x1_0000_0000_0000_0000,
{
    let mut r: u128 = 1;
    let mut i: u32 = 0;
    proof {
        vstd::arithmetic::power2::lemma2_to64();
    }
    while i < k
        invariant
            i <= k < 64,
            r == pow2(i as nat),
            0 < r < 0x1_0000_0000_0000_0000,
        decreases k - i,
    {
        proof {
            lemma_pow2_unfold((i + 1) as nat);
            vstd::arithmetic::power2::lemma2_to64();
            if i + 1 < 64 {
                lemma_pow2_strictly_increases((i + 1) as nat, 64);
            }
        }
        r = r * 2;
        i += 1;
    }
    r
}

/// Whether `m * 2^e < c * 2^k`.
fn scaled_lt(m: u64, e: u32, c: u64, k: u32) -> (r: bool)
    ensures
        r == (m * pow2(e as nat) < c * pow2(k as nat)),
{
    if e >= k {
        let g: u32 = e - k;
        proof {
            lemma_pow2_adds(g as nat, k as nat);
            lemma_pow2_pos(k as nat);
            lemma_pow2_pos(g as nat);
            let pg = pow2(g as nat);
            let pk = pow2(k as nat);
            assert(m * (pg * pk) == (m * pg) * pk) by (nonlinear_arith);
            assert(((m * pg) * pk < c * pk) == (m * pg < c)) by (nonlinear_arith)
                requires
                    pk > 0,
            ;
            if g >= 64 {
                vstd::arithmetic::power2::lemma2_to64();
                lemma_pow2_le(64, g as nat);
                if m > 0 {
                    assert(m * pg >= pg) by (nonlinear_arith)
                        requires
                            m >= 1,
                            pg > 0,
                    ;
                } else {
                    assert(m * pg == 0) by (nonlinear_arith)
                        requires
                            m == 0,
                    ;
                }
            }
        }
        if g >= 64 {
            m == 0 && c > 0
        } else {
            let p: u128 = power_of_two(g);
            assert(m * p < 0x1_0000_0000_0000_0000 * 0x1_0000_0000_0000_0000) by (nonlinear_arith)
                requires
                    0 <= m < 0x1_0000_0000_0000_0000,
                    0 < p < 0x1_0000_0000_0000_0000,
            ;
            (m as u128) * p < c as u128
        }
    } else {
        let g: u32 = k - e;
        proof {
            lemma_pow2_adds(g as nat, e as nat);
            lemma_pow2_pos(e as nat);
            lemma_pow2_pos(g as nat);
            let pg = pow2(g as nat);
            let pe = pow2(e as nat);
            assert(c * (pg * pe) == (c * pg) * pe) by (nonlinear_arith);
            assert((m * pe < (c * pg) * pe) == (m < c * pg)) by (nonlinear_arith)
                requires
                    pe > 0,
            ;
            if g >= 64 {
                vstd::arithmetic::power2::lemma2_to64();
                lemma_pow2_le(64, g as nat);
                if c > 0 {
                    assert(c * pg >= pg) by (nonlinear_arith)
                        requires
                            c >= 1,
                            pg > 0,
                    ;
                } else {
                    assert(c * pg == 0) by (nonlinear_arith)
                        requires
                            c == 0,
                    ;
                }
            }
        }
        if g >= 64 {
            c > 0
        } else {
            let p: u128 = power_of_two(g);
            assert(c * p < 0x1_0000_0000_0000_0000 * 0x1_0000_0000_0000_0000) by (nonlinear_arith)
                requires
                    0 <= c < 0x1_0000_0000_0000_0000,
                    0 < p < 0x1_0000_0000_0000_0000,
            ;
            (m as u128) < (c as u128) * p
        }
    }
}

/// A number far smaller than the spacing at `h` is lost when it is added to
/// `h` or taken from it.
pub proof fn lemma_small_term_is_lost(m: nat, k: nat, l: nat)
    requires
        k >= 1,
        0x80_0000 <= m < 0x100_0000,
        4 * l < pow2(k),
    ensures
        rounded(m * pow2(k) + l) == m * pow2(k),
        l <= m * pow2(k),
        rounded((m * pow2(k) - l) as nat) == m * pow2(k),
{
    let p = pow2(k);
    let h = m * p;
    lemma_pow2_pos(k);
    assert(0x80_0000 * p <= m * p) by (nonlinear_arith)
        requires
            0x80_0000 <= m,
            p > 0,
    ;
    assert(m * p + p <= 0x100_0000 * p) by (nonlinear_arith)
        requires
            m + 1 <= 0x100_0000,
            p > 0,
    ;
    assert(p <= 0x80_0000 * p) by (nonlinear_arith)
        requires
            p > 0,
    ;
    // the sum
    let s = (h + l) as nat;
    lemma_spacing(s, k);
    vstd::arithmetic::div_mod::lemma_fundamental_div_mod_converse(
        s as int,
        p as int,
        m as int,
        l as int,
    );
    assert(rounded(s) == m * p);
    // the difference
    if l == 0 {
        assert((h - l) as nat == s);
    } else if m > 0x80_0000 {
        let d = (h - l) as nat;
        assert(d == (m - 1) * p + (p - l)) by (nonlinear_arith)
            requires
                d == m * p - l,
        ;
        assert(0x80_0000 * p <= (m - 1) * p) by (nonlinear_arith)
            requires
                0x80_0000 <= m - 1,
                p > 0,
        ;
        lemma_spacing(d, k);
        vstd::arithmetic::div_mod::lemma_fundamental_div_mod_converse(
            d as int,
            p as int,
            m - 1,
            p - l,
        );
        assert(((m - 1) + 1) * p == m * p);
        assert(rounded(d) == m * p);
    } else {
        lemma_pow2_unfold(k);
        let ph = pow2((k - 1) as nat);
        lemma_pow2_pos((k - 1) as nat);
        let d = (h - l) as nat;
        assert(m * (2 * ph) == 0xff_ffff * ph + ph) by (nonlinear_arith)
            requires
                m == 0x80_0000,
        ;
        assert(d == 0xff_ffff * ph + (ph - l));
        assert(0x80_0000 * ph <= 0xff_ffff * ph) by (nonlinear_arith)
            requires
                ph > 0,
        ;
        assert(0xff_ffff * ph + ph == 0x100_0000 * ph) by (nonlinear_arith);
        lemma_spacing(d, (k - 1) as nat);
        vstd::arithmetic::div_mod::lemma_fundamental_div_mod_converse(
            d as int,
            ph as int,
            0xff_ffff,
            ph - l,
        );
        assert((0xff_ffff + 1) * ph == 0x100_0000 * ph);
        assert(rounded(d) == m * p);
    }
}

/// Dividing by `2^16` takes sixteen from the power of two.
proof fn lemma_quotient(x: nat, j: nat)
    ensures
        (x * pow2(j + 16)) / 0x1_0000 == x * pow2(j),
{
    lemma_pow2_adds(j, 16);
    vstd::arithmetic::power2::lemma2_to64();
    let p = pow2(j);
    assert(x * (p * 0x1_0000) == (x * p) * 0x1_0000) by (nonlinear_arith);
    vstd::arithmetic::div_mod::lemma_div_by_multiple((x * p) as int, 0x1_0000);
}

/// Whether two magnitudes `h >= l` are near each other, where the numbers
/// they belong to have the same sign or have not.
pub open spec fn near(h: nat, l: nat, same_sign: bool) -> bool {
    let gap = if same_sign {
        (h - l) as nat
    } else {
        h + l
    };
    let sum = rounded(h + l);
    let norm = if sum < magnitude(MAX) {
        sum
    } else {
        magnitude(MAX)
    };
    rounded(gap) < threshold(norm)
}

/// Whether the magnitudes of two finite patterns without sign, the first
/// not below the second, are near each other.
fn near_magnitudes(hi: u32, lo: u32, same_sign: bool) -> (r: bool)
    requires
        lo <= hi < INFINITY,
    ensures
        r == near(magnitude(hi), magnitude(lo), same_sign),
        magnitude(lo) <= magnitude(hi),
{
    let (mh, eh) = decode(hi);
    let (ml, el) = decode(lo);
    let ghost h = magnitude(hi);
    let ghost l = magnitude(lo);
    let ghost p = pow2(el as nat);
    let ghost tol = magnitude(TOLERANCE);
    let ghost top = magnitude(MAX);
    proof {
        if lo < hi {
            lemma_magnitude_increases(lo, hi);
        }
        if hi < MAX {
            lemma_magnitude_increases(hi, MAX);
        }
        if hi < TOLERANCE {
            lemma_magnitude_increases(hi, TOLERANCE);
        } else if hi > TOLERANCE {
            lemma_magnitude_increases(TOLERANCE, hi);
        }
        lemma_pow2_pos(el as nat);
        assert(significand(TOLERANCE) == 0x80_0000 && shift(TOLERANCE) == 110);
        assert(significand(MAX) == 0xff_ffff && shift(MAX) == 253);
        assert(exponent_field(lo) <= exponent_field(hi));
    }
    let d: u32 = eh - el;
    if d > 32 {
        proof {
            vstd::arithmetic::power2::lemma2_to64();
            lemma_pow2_adds(26, el as nat);
            lemma_pow2_le((26 + el) as nat, eh as nat);
            assert(4 * l < pow2((26 + el) as nat)) by (nonlinear_arith)
                requires
                    l == ml * p,
                    ml < 0x100_0000,
                    p > 0,
                    pow2((26 + el) as nat) == 0x400_0000 * p,
            ;
            lemma_small_term_is_lost(mh as nat, eh as nat, l);
            assert(h / 0x1_0000 <= h);
        }
        return hi < TOLERANCE;
    }
    let pd: u128 = power_of_two(d);
    proof {
        vstd::arithmetic::power2::lemma2_to64();
        lemma_pow2_le(d as nat, 32);
        lemma_pow2_adds(d as nat, el as nat);
        assert(mh * pd < 0x100_0000 * 0x1_0000_0000) by (nonlinear_arith)
            requires
                0 <= mh < 0x100_0000,
                0 < pd <= 0x1_0000_0000,
        ;
    }
    let big: u64 = mh * (pd as u64);
    proof {
        assert(h == big * p) by (nonlinear_arith)
            requires
                h == mh * (pd * p),
                big == mh * pd,
        ;
        assert(ml <= big) by (nonlinear_arith)
            requires
                ml * p <= big * p,
                p > 0,
        ;
    }
    let gap: u64 = if same_sign {
        big - ml
    } else {
        big + ml
    };
    let sum: u64 = big + ml;
    let rg: u64 = round(gap);
    let rs: u64 = round(sum);
    proof {
        lemma_rounded_scales(gap as nat, el as nat);
        lemma_rounded_scales(sum as nat, el as nat);
        assert(sum * p == h + l) by (nonlinear_arith)
            requires
                sum == big + ml,
                h == big * p,
                l == ml * p,
        ;
        if same_sign {
            assert(gap * p == h - l) by (nonlinear_arith)
                requires
                    gap == big - ml,
                    h == big * p,
                    l == ml * p,
            ;
        }
        assert(rounded(h + l) == rs * p);
        assert(rounded(if same_sign {
            (h - l) as nat
        } else {
            h + l
        }) == rg * p);
    }
    let under: bool = scaled_lt(rg, el, 0x80_0000, 110);
    if under {
        return true;
    }
    if el < 16 {
        proof {
            // the norm is far below one, so the tolerance itself is the threshold
            lemma_pow2_le(el as nat, 15);
            lemma_pow2_le(64, 110);
            assert(rs * p <= 0x800_0000_0000_0000 * 0x8000) by (nonlinear_arith)
                requires
                    0 <= rs <= 0x800_0000_0000_0000,
                    0 < p <= 0x8000,
            ;
            assert(tol >= 0x80_0000 * 0x1_0000_0000_0000_0000) by (nonlinear_arith)
                requires
                    tol == 0x80_0000 * pow2(110),
                    pow2(110) >= 0x1_0000_0000_0000_0000,
            ;
        }
        return false;
    }
    let over: bool = scaled_lt(0xff_ffff, 253, rs, el);
    proof {
        lemma_quotient(0xff_ffff, 237);
        lemma_quotient(rs as nat, (el - 16) as nat);
    }
    if over {
        scaled_lt(rg, el, 0xff_ffff, 237)
    } else {
        scaled_lt(rg, el, rs, el - 16)
    }
}

/// Whether `a` and `b` are equal or nearly so.
pub fn appx_eq(a: u32, b: u32) -> (r: bool)
    ensures
        r == approx_equal(a, b),
{
    if nan(a) || nan(b) {
        return false;
    }
    if eq(a, b) {
        return true;
    }
    if !finite(a) || !finite(b) {
        return false;
    }
    let ba: u32 = abs_bits(a);
    let bb: u32 = abs_bits(b);
    let same_sign: bool = (a >= 0x8000_0000) == (b >= 0x8000_0000);
    if ba >= bb {
        near_magnitudes(ba, bb, same_sign)
    } else {
        near_magnitudes(bb, ba, same_sign)
    }
}

/// The smaller of two numbers: `a` where `a < b`, else `b`.
pub open spec fn smaller(a: u32, b: u32) -> u32 {
    if less(a, b) {
        a
    } else {
        b
    }
}

/// The larger of two numbers: `a` where `a > b`, else `b`.
pub open spec fn larger(a: u32, b: u32) -> u32 {
    if less(b, a) {
        a
    } else {
        b
    }
}

pub fn min(a: u32, b: u32) -> (r: u32)
    ensures
        r == smaller(a, b),
{
    if lt(a, b) {
        a
    } else {
        b
    }
}

pub fn max(a: u32, b: u32) -> (r: u32)
    ensures
        r == larger(a, b),
{
    if gt(a, b) {
        a
    } else {
        b
    }
}

} // verus!
