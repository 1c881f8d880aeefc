use raycaster::number::{Double, Single};

fn double(v: f64) -> Double {
    Double { bits: v.to_bits() }
}

fn single(v: f32) -> Single {
    Single { bits: v.to_bits() }
}

/// Doubles of every kind: zeros, subnormals, numbers small and large,
/// infinities and NaNs of both signs.
fn sample_doubles() -> Vec<f64> {
    vec![
        0.0,
        -0.0,
        f64::from_bits(1),
        -f64::from_bits(1),
        f64::MIN_POSITIVE,
        -f64::MIN_POSITIVE,
        1e-6,
        -1e-6,
        0.5,
        -0.5,
        1.0,
        -1.0,
        1.0 + f64::EPSILON,
        3.0,
        -3.0,
        300000.0,
        f64::MAX,
        f64::MIN,
        f64::INFINITY,
        f64::NEG_INFINITY,
        f64::NAN,
        -f64::NAN,
        f64::from_bits(0x7FF0_0000_0000_0001),
        f64::from_bits(0xFFFF_FFFF_FFFF_FFFF),
    ]
}

#[test]
fn lt_agrees_with_the_hardware() {
    for a in sample_doubles() {
        for b in sample_doubles() {
            assert_eq!(double(a).lt(&double(b)), a < b, "{:?} < {:?}", a, b);
        }
    }
}

#[test]
fn gt_agrees_with_the_hardware() {
    for a in sample_doubles() {
        for b in sample_doubles() {
            assert_eq!(double(a).gt(&double(b)), a > b, "{:?} > {:?}", a, b);
        }
    }
}

#[test]
fn ge_agrees_with_the_hardware() {
    for a in sample_doubles() {
        for b in sample_doubles() {
            assert_eq!(double(a).ge(&double(b)), a >= b, "{:?} >= {:?}", a, b);
        }
    }
}

/// A walk over bit patterns that visits every exponent and both signs.
fn walk(seed: u64, steps: usize) -> Vec<u64> {
    let mut state = seed;
    let mut patterns = Vec::new();
    for _ in 0..steps {
        state = state.wrapping_mul(6364136223846793005).wrapping_add(1442695040888963407);
        patterns.push(state ^ (state >> 29));
    }
    patterns
}

#[test]
fn comparisons_agree_with_the_hardware_on_a_walk() {
    let left = walk(1, 100_000);
    let right = walk(2, 100_000);
    for (&a, &b) in left.iter().zip(right.iter()) {
        let (x, y) = (f64::from_bits(a), f64::from_bits(b));
        let (p, q) = (Double { bits: a }, Double { bits: b });
        assert_eq!(p.lt(&q), x < y, "{:#x} < {:#x}", a, b);
        assert_eq!(p.gt(&q), x > y, "{:#x} > {:#x}", a, b);
        assert_eq!(p.ge(&q), x >= y, "{:#x} >= {:#x}", a, b);
        assert_eq!(p.nan(), x.is_nan(), "{:#x}", a);
    }
}

#[test]
fn comparisons_agree_with_the_hardware_on_neighbours() {
    for &a in walk(3, 20_000).iter() {
        for b in [a.wrapping_sub(1), a, a.wrapping_add(1), a ^ 0x8000_0000_0000_0000] {
            let (x, y) = (f64::from_bits(a), f64::from_bits(b));
            let (p, q) = (Double { bits: a }, Double { bits: b });
            assert_eq!(p.lt(&q), x < y, "{:#x} < {:#x}", a, b);
            assert_eq!(p.gt(&q), x > y, "{:#x} > {:#x}", a, b);
            assert_eq!(p.ge(&q), x >= y, "{:#x} >= {:#x}", a, b);
        }
    }
}

#[test]
fn nan_is_told_from_numbers() {
    for a in sample_doubles() {
        assert_eq!(double(a).nan(), a.is_nan(), "{:?}", a);
    }
}

#[test]
fn comparisons_with_nan_are_false() {
    let nan = double(f64::NAN);
    let one = double(1.0);
    assert!(!nan.lt(&one));
    assert!(!one.lt(&nan));
    assert!(!nan.gt(&one));
    assert!(!one.gt(&nan));
    assert!(!nan.ge(&nan));
    assert!(!nan.ge(&one));
}

#[test]
fn zeros_compare_equal() {
    let plus = double(0.0);
    let minus = double(-0.0);
    assert!(!plus.lt(&minus));
    assert!(!minus.lt(&plus));
    assert!(plus.ge(&minus));
    assert!(minus.ge(&plus));
}

#[test]
fn ordinal_of_known_patterns() {
    assert_eq!(double(0.0).ordinal(), 0);
    assert_eq!(double(-0.0).ordinal(), 0);
    assert_eq!(double(1.0).ordinal(), 0x3FF0_0000_0000_0000);
    assert_eq!(double(-1.0).ordinal(), -0x3FF0_0000_0000_0000);
    assert_eq!(double(f64::INFINITY).ordinal(), 0x7FF0_0000_0000_0000);
    assert_eq!(Double { bits: u64::MAX }.ordinal(), -0x7FFF_FFFF_FFFF_FFFF);
}

#[test]
fn ordinal_orders_numbers_as_the_hardware_does() {
    for a in sample_doubles() {
        for b in sample_doubles() {
            if !a.is_nan() && !b.is_nan() {
                assert_eq!(double(a).ordinal() < double(b).ordinal(), a < b, "{:?} {:?}", a, b);
                assert_eq!(double(a).ordinal() == double(b).ordinal(), a == b, "{:?} {:?}", a, b);
            }
        }
    }
}

#[test]
fn nearer_ranks_nan_last() {
    let nan = double(f64::NAN);
    let far = double(f64::INFINITY);
    let near = double(-2.0);
    assert!(near.nearer(&far));
    assert!(!far.nearer(&near));
    assert!(far.nearer(&nan));
    assert!(near.nearer(&nan));
    assert!(!nan.nearer(&far));
    assert!(!nan.nearer(&nan));
    assert!(!near.nearer(&near));
}

#[test]
fn nearer_is_lt_on_numbers() {
    for a in sample_doubles() {
        for b in sample_doubles() {
            if !a.is_nan() && !b.is_nan() {
                assert_eq!(double(a).nearer(&double(b)), a < b, "{:?} {:?}", a, b);
            }
        }
    }
}

#[test]
fn zero_is_positive_zero() {
    assert_eq!(Double::zero().bits, 0);
    assert_eq!(f64::from_bits(Double::zero().bits), 0.0);
}

#[test]
fn level_of_the_ends() {
    assert_eq!(single(0.0).to_level(), 0);
    assert_eq!(single(1.0).to_level(), 255);
}

#[test]
fn level_rounds_to_nearest() {
    // 0.5 * 255 = 127.5, and a half rounds up.
    assert_eq!(single(0.5).to_level(), 128);
    // 0.25 * 255 = 63.75
    assert_eq!(single(0.25).to_level(), 64);
    // 0.75 * 255 = 191.25
    assert_eq!(single(0.75).to_level(), 191);
    // 0.125 * 255 = 31.875
    assert_eq!(single(0.125).to_level(), 32);
    // 0.001 * 255 = 0.255
    assert_eq!(single(0.001).to_level(), 0);
    // 0.002 * 255 = 0.51
    assert_eq!(single(0.002).to_level(), 1);
    // 0.998 * 255 = 254.49
    assert_eq!(single(0.998).to_level(), 254);
    // 0.999 * 255 = 254.745
    assert_eq!(single(0.999).to_level(), 255);
}

#[test]
fn level_clamps_to_the_unit_range() {
    assert_eq!(single(-0.0).to_level(), 0);
    assert_eq!(single(-0.5).to_level(), 0);
    assert_eq!(single(-1e30).to_level(), 0);
    assert_eq!(single(f32::NEG_INFINITY).to_level(), 0);
    assert_eq!(single(1.5).to_level(), 255);
    assert_eq!(single(1e30).to_level(), 255);
    assert_eq!(single(f32::INFINITY).to_level(), 255);
}

#[test]
fn level_of_nan_is_zero() {
    assert_eq!(single(f32::NAN).to_level(), 0);
    assert_eq!(single(-f32::NAN).to_level(), 0);
    assert_eq!(Single { bits: 0x7F80_0001 }.to_level(), 0);
    assert_eq!(Single { bits: 0xFFFF_FFFF }.to_level(), 0);
}

#[test]
fn level_of_tiny_values_is_zero() {
    assert_eq!(Single { bits: 1 }.to_level(), 0);
    assert_eq!(single(f32::MIN_POSITIVE).to_level(), 0);
    assert_eq!(single(1e-10).to_level(), 0);
    // Just below 1 / 510, where the level turns from 0 to 1.
    assert_eq!(single(0.00196).to_level(), 0);
    assert_eq!(single(0.00197).to_level(), 1);
}

#[test]
fn level_rounds_the_exact_product() {
    // 255 times this value is 128.5 - 2^-24: below the half, if only just.
    let c = Single { bits: 0x3F01_0101 };
    assert_eq!(c.to_level(), 128);
    let next = Single { bits: 0x3F01_0102 };
    assert_eq!(next.to_level(), 129);
}

/// The level worked out in double precision, where 255 times a single is
/// exact.
fn level_in_double(c: f32) -> u8 {
    ((c as f64).clamp(0.0, 1.0) * 255.0).round() as u8
}

#[test]
fn level_agrees_with_double_precision_on_a_sweep() {
    let mut bits: u32 = 0;
    loop {
        let c = f32::from_bits(bits);
        assert_eq!(Single { bits }.to_level(), level_in_double(c), "bits {:#x}", bits);
        match bits.checked_add(40_009) {
            Some(next) => bits = next,
            None => break,
        }
    }
}

#[test]
fn level_agrees_with_double_precision_near_one() {
    for bits in 0x3F7F_F000u32..0x3F80_1000u32 {
        let c = f32::from_bits(bits);
        assert_eq!(Single { bits }.to_level(), level_in_double(c), "bits {:#x}", bits);
    }
}

#[test]
fn level_never_falls_as_the_value_grows() {
    let mut last: u8 = 0;
    let mut bits: u32 = 0;
    while bits <= 0x3F80_0000 {
        let l = Single { bits }.to_level();
        assert!(l >= last, "bits {:#x}", bits);
        last = l;
        bits += 4099;
    }
    assert_eq!(last, 255);
}
