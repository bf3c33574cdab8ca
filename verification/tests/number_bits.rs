use flax::number::{equal, less, less_equal, nan, negate, INFINITY, SIGN_BIT};

fn samples() -> Vec<f64> {
    vec![
        0.0,
        -0.0,
        1.0,
        -1.0,
        2.5,
        -2.5,
        0.1,
        1e21,
        -1e-7,
        5e-324,
        -5e-324,
        f64::MIN_POSITIVE,
        f64::EPSILON,
        f64::MAX,
        f64::MIN,
        f64::INFINITY,
        f64::NEG_INFINITY,
        f64::NAN,
        -f64::NAN,
        f64::from_bits(0x7ff0_0000_0000_0001),
        f64::from_bits(0xffff_ffff_ffff_ffff),
    ]
}

#[test]
fn nan_is_told_from_the_bits() {
    for value in samples() {
        assert_eq!(nan(value.to_bits()), value.is_nan(), "{value:?}");
    }
    assert!(!nan(INFINITY));
    assert!(nan(INFINITY + 1));
    assert!(!nan(SIGN_BIT | INFINITY));
    assert!(nan((SIGN_BIT | INFINITY) + 1));
    assert!(nan(u64::MAX));
    assert!(!nan(0));
}

#[test]
fn negate_flips_the_sign_bit() {
    for value in samples() {
        assert_eq!(negate(value.to_bits()), (-value).to_bits(), "{value:?}");
        assert_eq!(negate(value.to_bits()), value.to_bits() ^ SIGN_BIT, "{value:?}");
        assert_eq!(negate(negate(value.to_bits())), value.to_bits(), "{value:?}");
    }
    assert_eq!(negate(1.0f64.to_bits()), 0xbff0_0000_0000_0000);
    assert_eq!(negate(0), SIGN_BIT);
    assert_eq!(negate(SIGN_BIT), 0);
}

#[test]
fn equal_is_ieee_equality() {
    for a in samples() {
        for b in samples() {
            assert_eq!(equal(a.to_bits(), b.to_bits()), a == b, "{a:?} == {b:?}");
        }
    }
}

#[test]
fn less_is_ieee_less_than() {
    for a in samples() {
        for b in samples() {
            assert_eq!(less(a.to_bits(), b.to_bits()), a < b, "{a:?} < {b:?}");
        }
    }
}

#[test]
fn less_equal_is_ieee_less_or_equal() {
    for a in samples() {
        for b in samples() {
            assert_eq!(less_equal(a.to_bits(), b.to_bits()), a <= b, "{a:?} <= {b:?}");
        }
    }
}

#[test]
fn the_two_zeros_are_equal_and_neither_is_less() {
    assert!(equal(0, SIGN_BIT));
    assert!(equal(SIGN_BIT, 0));
    assert!(!less(SIGN_BIT, 0));
    assert!(!less(0, SIGN_BIT));
    assert!(less_equal(SIGN_BIT, 0));
    assert!(less_equal(0, SIGN_BIT));
}

#[test]
fn a_nan_compares_false_with_everything() {
    let quiet = f64::NAN.to_bits();
    for value in samples() {
        let bits = value.to_bits();
        assert!(!equal(quiet, bits));
        assert!(!equal(bits, quiet));
        assert!(!less(quiet, bits));
        assert!(!less(bits, quiet));
        assert!(!less_equal(quiet, bits));
        assert!(!less_equal(bits, quiet));
    }
}

#[test]
fn negative_numbers_order_by_falling_magnitude() {
    assert!(less((-2.0f64).to_bits(), (-1.0f64).to_bits()));
    assert!(!less((-1.0f64).to_bits(), (-2.0f64).to_bits()));
    assert!(less(f64::NEG_INFINITY.to_bits(), f64::MIN.to_bits()));
    assert!(less((-1.0f64).to_bits(), 0));
    assert!(less((-5e-324f64).to_bits(), 5e-324f64.to_bits()));
    assert!(less(f64::MAX.to_bits(), f64::INFINITY.to_bits()));
}
