use deltarune_autosplit::num::{GameNum, INFINITY_BITS, SIGN_BIT, R_0, R_1, R_2, R_3, R_4, R_5, R_6, R_7, R_9, R_10, R_13, R_18, R_21, R_30, R_32, R_60, R_74, R_75, R_76, R_95, R_108, R_110, R_120, R_140, R_145, R_150, R_154, R_156, R_250, R_398, R_440, R_560, R_601, R_1173, R_MINUS_1};

fn n(x: f64) -> GameNum {
    GameNum::from_bits(x.to_bits())
}

#[test]
fn constants_are_the_bit_patterns_of_their_values() {
    let table: [(u64, f64); 35] = [
        (R_0, 0.0), (R_1, 1.0), (R_2, 2.0), (R_3, 3.0), (R_4, 4.0), (R_5, 5.0), (R_6, 6.0),
        (R_7, 7.0), (R_9, 9.0), (R_10, 10.0), (R_13, 13.0), (R_18, 18.0), (R_21, 21.0),
        (R_30, 30.0), (R_32, 32.0), (R_60, 60.0), (R_74, 74.0), (R_75, 75.0), (R_76, 76.0),
        (R_95, 95.0), (R_108, 108.0), (R_110, 110.0), (R_120, 120.0), (R_140, 140.0),
        (R_145, 145.0), (R_150, 150.0), (R_154, 154.0), (R_156, 156.0), (R_250, 250.0),
        (R_398, 398.0), (R_440, 440.0), (R_560, 560.0), (R_601, 601.0), (R_1173, 1173.0),
        (R_MINUS_1, -1.0),
    ];
    for (bits, value) in table {
        assert_eq!(bits, value.to_bits(), "constant for {}", value);
    }
    assert_eq!(INFINITY_BITS, f64::INFINITY.to_bits());
    assert_eq!(SIGN_BIT, (-0.0f64).to_bits());
}

#[test]
fn comparisons_agree_with_f64_on_many_values() {
    let values = [
        0.0, -0.0, 1.0, -1.0, 0.5, -0.5, 2.5, 156.0, 155.99, 1e300, -1e300, f64::INFINITY,
        f64::NEG_INFINITY, f64::NAN, f64::MIN_POSITIVE, 5e-324, -5e-324, 75.0, 74.0,
    ];
    for &a in values.iter() {
        for &b in values.iter() {
            let (x, y) = (n(a), n(b));
            assert_eq!(x.eq(y), a == b, "{} == {}", a, b);
            assert_eq!(x.ne(y), a != b, "{} != {}", a, b);
            assert_eq!(x.lt(y), a < b, "{} < {}", a, b);
            assert_eq!(x.le(y), a <= b, "{} <= {}", a, b);
            assert_eq!(x.gt(y), a > b, "{} > {}", a, b);
            assert_eq!(x.ge(y), a >= b, "{} >= {}", a, b);
        }
    }
}

#[test]
fn comparisons_with_constants() {
    assert!(n(156.0).eq_c(R_156));
    assert!(n(157.0).gt_c(R_156));
    assert!(n(155.5).lt_c(R_156));
    assert!(n(30.0).ge_c(R_30));
    assert!(!n(29.999).ge_c(R_30));
    assert!(n(-1.0).le_c(R_0));
    assert!(!n(f64::NAN).eq_c(R_0));
    assert!(!n(f64::NAN).ge_c(R_0));
    assert!(!n(f64::NAN).le_c(R_0));
}

#[test]
fn zeros_are_equal_but_differ_in_bits() {
    let z = GameNum::zero();
    let nz = n(-0.0);
    assert!(z.eq(nz));
    assert!(!z.same_bits(nz));
    assert_eq!(z.bits, 0);
}

#[test]
fn nan_is_detected() {
    assert!(n(f64::NAN).is_nan());
    assert!(!n(f64::INFINITY).is_nan());
    assert!(!n(-3.0).is_nan());
    assert!(GameNum::from_bits(0xFFF8_0000_0000_0001).is_nan());
}
