use a2d::geo::single::abs_bits;
use a2d::geo::single::appx_eq;
use a2d::geo::single::eq;
use a2d::geo::single::finite;
use a2d::geo::single::gt;
use a2d::geo::single::lt;
use a2d::geo::single::max;
use a2d::geo::single::min;
use a2d::geo::single::nan;
use a2d::geo::single::round;
use a2d::geo::single::INFINITY;
use a2d::geo::single::MAX;
use a2d::geo::single::TOLERANCE;

fn float_min(a: f32, b: f32) -> f32 {
    if a < b {
        a
    } else {
        b
    }
}

fn float_max(a: f32, b: f32) -> f32 {
    if a > b {
        a
    } else {
        b
    }
}

/// Approximate equality in single-precision arithmetic.
fn float_appx_eq(a: f32, b: f32) -> bool {
    a == b || {
        let epsilon: f32 = f32::EPSILON * 128.0;
        let relth: f32 = epsilon;
        let diff = (a - b).abs();
        let norm = float_min(a.abs() + b.abs(), f32::MAX);
        diff < float_max(relth, epsilon * norm)
    }
}

fn check_pair(a: u32, b: u32) {
    let fa = f32::from_bits(a);
    let fb = f32::from_bits(b);
    assert_eq!(appx_eq(a, b), float_appx_eq(fa, fb), "appx_eq {:#x} {:#x}", a, b);
    assert_eq!(lt(a, b), fa < fb, "lt {:#x} {:#x}", a, b);
    assert_eq!(gt(a, b), fa > fb, "gt {:#x} {:#x}", a, b);
    assert_eq!(eq(a, b), fa == fb, "eq {:#x} {:#x}", a, b);
    assert_eq!(min(a, b), float_min(fa, fb).to_bits(), "min {:#x} {:#x}", a, b);
    assert_eq!(max(a, b), float_max(fa, fb).to_bits(), "max {:#x} {:#x}", a, b);
}

struct Lcg(u64);

impl Lcg {
    fn next(&mut self) -> u32 {
        self.0 = self.0.wrapping_mul(6364136223846793005).wrapping_add(1442695040888963407);
        (self.0 >> 32) as u32
    }
}

#[test]
fn constants_are_the_numbers_they_name() {
    assert_eq!(INFINITY, f32::INFINITY.to_bits());
    assert_eq!(MAX, f32::MAX.to_bits());
    assert_eq!(TOLERANCE, (f32::EPSILON * 128.0).to_bits());
    assert_eq!(f32::from_bits(TOLERANCE), 1.0 / 65536.0);
}

#[test]
fn classification_follows_the_numbers() {
    let mut rng = Lcg(7);
    for _ in 0..100_000 {
        let x = rng.next();
        let f = f32::from_bits(x);
        assert_eq!(nan(x), f.is_nan());
        assert_eq!(finite(x), f.is_finite());
        assert_eq!(abs_bits(x), f.abs().to_bits());
    }
    assert!(nan(f32::NAN.to_bits()));
    assert!(!finite(f32::INFINITY.to_bits()));
    assert!(!finite(f32::NEG_INFINITY.to_bits()));
    assert!(finite(f32::MAX.to_bits()));
}

#[test]
fn appx_eq_on_named_values() {
    let one = 1.0f32.to_bits();
    let zero = 0.0f32.to_bits();
    let minus_zero = (-0.0f32).to_bits();
    assert!(appx_eq(one, one));
    assert!(appx_eq(zero, minus_zero));
    assert!(!appx_eq(zero, one));
    assert!(appx_eq(one, 1.000001f32.to_bits()));
    assert!(!appx_eq(one, 1.001f32.to_bits()));
    // below the tolerance in absolute terms
    assert!(appx_eq(zero, 0.00001f32.to_bits()));
    assert!(appx_eq(0.00001f32.to_bits(), (-0.000004f32).to_bits()));
    assert!(!appx_eq(zero, 0.0001f32.to_bits()));
    // large magnitudes are compared in relative terms
    assert!(appx_eq(1.0e30f32.to_bits(), 1.000001e30f32.to_bits()));
    assert!(!appx_eq(1.0e30f32.to_bits(), 1.001e30f32.to_bits()));
    // nothing is near a NaN, and only an infinity is near itself
    let nan_bits = f32::NAN.to_bits();
    let inf = f32::INFINITY.to_bits();
    let minus_inf = f32::NEG_INFINITY.to_bits();
    assert!(!appx_eq(nan_bits, nan_bits));
    assert!(!appx_eq(nan_bits, one));
    assert!(!appx_eq(one, nan_bits));
    assert!(appx_eq(inf, inf));
    assert!(appx_eq(minus_inf, minus_inf));
    assert!(!appx_eq(inf, minus_inf));
    assert!(!appx_eq(inf, f32::MAX.to_bits()));
}

#[test]
fn appx_eq_where_the_difference_rounds_up_to_the_tolerance() {
    // 2^-16 - 2^-40 is the number just below the tolerance; taking -2^-41
    // from it gives a tie that rounds to the tolerance itself.
    let a = TOLERANCE - 1;
    let b = (-(2.0f32.powi(-41))).to_bits();
    assert_eq!(f32::from_bits(a) - f32::from_bits(b), f32::from_bits(TOLERANCE));
    assert!(!appx_eq(a, b));
    assert!(!float_appx_eq(f32::from_bits(a), f32::from_bits(b)));
    // one step less, and the difference stays below the tolerance
    let c = (-(2.0f32.powi(-42))).to_bits();
    assert!(appx_eq(a, c));
    check_pair(a, b);
    check_pair(a, c);
}

#[test]
fn appx_eq_agrees_with_arithmetic_on_special_values() {
    let specials: [u32; 28] = [
        0x0000_0000,
        0x8000_0000,
        0x0000_0001,
        0x8000_0001,
        0x007f_ffff,
        0x0080_0000,
        0x0080_0001,
        0x00ff_ffff,
        0x0100_0000,
        0x3f80_0000,
        0xbf80_0000,
        0x3f7f_ffff,
        0x3f80_0001,
        0x3780_0000,
        0x377f_ffff,
        0x3780_0001,
        0xb780_0000,
        0x3700_0000,
        0x3800_0000,
        0x7f7f_ffff,
        0xff7f_ffff,
        0x7f7f_fffe,
        0x7f00_0000,
        0x7f80_0000,
        0xff80_0000,
        0x7fc0_0000,
        0xffc0_0001,
        0x7f80_0001,
    ];
    for a in specials {
        for b in specials {
            check_pair(a, b);
        }
    }
}

#[test]
fn appx_eq_agrees_with_arithmetic_on_arbitrary_pairs() {
    let mut rng = Lcg(1);
    for _ in 0..200_000 {
        check_pair(rng.next(), rng.next());
    }
}

#[test]
fn appx_eq_agrees_with_arithmetic_on_close_pairs() {
    // Neighbours a few hundred steps apart straddle the relative threshold.
    let mut rng = Lcg(2);
    for _ in 0..200_000 {
        let a = rng.next();
        let step = rng.next() % 1024;
        check_pair(a, a.wrapping_add(step));
        check_pair(a, a.wrapping_sub(step));
        check_pair(a.wrapping_add(step), a);
    }
}

#[test]
fn appx_eq_agrees_with_arithmetic_around_the_relative_threshold() {
    let mut rng = Lcg(3);
    for _ in 0..100_000 {
        let a = rng.next();
        for step in 250..262 {
            check_pair(a, a.wrapping_add(step));
            check_pair(a.wrapping_add(step), a);
        }
    }
}

#[test]
fn appx_eq_agrees_with_arithmetic_around_the_absolute_threshold() {
    // Magnitudes from 2^-20 to 2^-12, both signs, and neighbours of the
    // tolerance itself.
    let mut rng = Lcg(4);
    for _ in 0..200_000 {
        let a = 0x3580_0000 + rng.next() % 0x0400_0000;
        let b = 0x3580_0000 + rng.next() % 0x0400_0000;
        check_pair(a, b);
        check_pair(a, b | 0x8000_0000);
        check_pair(a | 0x8000_0000, b);
        check_pair(a | 0x8000_0000, b | 0x8000_0000);
    }
    for i in 0..4096 {
        for j in 0..64 {
            check_pair(TOLERANCE - 2048 + i, j);
            check_pair(TOLERANCE - 2048 + i, j | 0x8000_0000);
            check_pair(TOLERANCE - 2048 + i, 0x2a80_0000 + j - 32);
            check_pair(TOLERANCE - 2048 + i, 0xaa80_0000 + j - 32);
            check_pair(TOLERANCE - 2048 + i, 0x2b00_0000 + j - 32);
            check_pair(TOLERANCE - 2048 + i, 0xab00_0000 + j - 32);
        }
    }
}

#[test]
fn appx_eq_agrees_with_arithmetic_on_mixed_exponents() {
    // Exponents that differ by up to forty, so that both ways of comparing
    // are met, around every magnitude.
    let mut rng = Lcg(5);
    for _ in 0..200_000 {
        let a = rng.next();
        let field = (a >> 23) & 0xff;
        let down = rng.next() % 41;
        let other_field = if field >= down { field - down } else { 0 };
        let b = (rng.next() & 0x807f_ffff) | (other_field << 23);
        check_pair(a, b);
        check_pair(b, a);
    }
}

#[test]
fn appx_eq_agrees_with_arithmetic_on_subnormals_and_near_overflow() {
    let mut rng = Lcg(6);
    for _ in 0..100_000 {
        let a = rng.next() & 0x80ff_ffff;
        let b = rng.next() & 0x80ff_ffff;
        check_pair(a, b);
        let c = 0x7e80_0000 + rng.next() % 0x0100_0000;
        let d = 0x7e80_0000 + rng.next() % 0x0100_0000;
        check_pair(c, d);
        check_pair(c, d | 0x8000_0000);
        check_pair(c, c + rng.next() % 600);
        check_pair(MAX - rng.next() % 600, MAX - rng.next() % 600);
    }
}

#[test]
fn ordering_treats_the_zeros_as_equal() {
    let zero = 0.0f32.to_bits();
    let minus_zero = (-0.0f32).to_bits();
    assert!(eq(zero, minus_zero));
    assert!(!lt(minus_zero, zero));
    assert!(!gt(zero, minus_zero));
    assert!(lt((-1.0f32).to_bits(), zero));
    assert!(lt(minus_zero, f32::MIN_POSITIVE.to_bits()));
    assert!(lt(f32::NEG_INFINITY.to_bits(), f32::MIN.to_bits()));
    assert!(lt(f32::MAX.to_bits(), f32::INFINITY.to_bits()));
    // min and max hand back the second argument unless the first wins
    assert_eq!(min(zero, minus_zero), minus_zero);
    assert_eq!(max(zero, minus_zero), minus_zero);
    assert_eq!(min(1.0f32.to_bits(), f32::NAN.to_bits()), f32::NAN.to_bits());
    assert_eq!(min(f32::NAN.to_bits(), 1.0f32.to_bits()), 1.0f32.to_bits());
    assert_eq!(max(f32::NAN.to_bits(), 1.0f32.to_bits()), 1.0f32.to_bits());
}

#[test]
fn round_gives_the_nearest_number_ties_to_even() {
    assert_eq!(round(0), 0);
    assert_eq!(round(1), 1);
    assert_eq!(round(0xff_ffff), 0xff_ffff);
    assert_eq!(round(0x100_0000), 0x100_0000);
    // 2^24 + 1 lies between 2^24 and 2^24 + 2: a tie, and 2^24 is even
    assert_eq!(round(0x100_0001), 0x100_0000);
    // 2^24 + 3 lies between 2^24 + 2 and 2^24 + 4: a tie, and 2^24 + 4 is even
    assert_eq!(round(0x100_0003), 0x100_0004);
    assert_eq!(round(0x1ff_ffff), 0x200_0000);
    assert_eq!(round(0x200_0001), 0x200_0000);
    assert_eq!(round(0x200_0002), 0x200_0000);
    assert_eq!(round(0x200_0003), 0x200_0004);
    let mut rng = Lcg(8);
    for _ in 0..200_000 {
        let n = (((rng.next() as u64) << 32) | rng.next() as u64) >> (6 + rng.next() % 40);
        assert_eq!(round(n) as f64, (n as f32) as f64, "round {:#x}", n);
    }
}
