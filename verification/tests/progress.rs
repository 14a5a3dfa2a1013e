use browser_shell::progress::{Fraction, NEGATIVE_ZERO_BITS, ONE_BITS};

fn fraction(value: f64) -> Fraction {
    Fraction::from_bits(value.to_bits())
}

#[test]
fn bits_round_trip() {
    let samples: [f64; 6] = [0.0, 0.25, 0.5, 1.0, 3.75, -2.0];
    for value in samples {
        let f = fraction(value);
        assert_eq!(f.to_bits(), value.to_bits());
        assert_eq!(f64::from_bits(f.to_bits()), value);
    }
}

#[test]
fn named_encodings_are_those_of_the_numbers() {
    assert_eq!(ONE_BITS, 1.0f64.to_bits());
    assert_eq!(NEGATIVE_ZERO_BITS, (-0.0f64).to_bits());
    assert_eq!(Fraction::zero().to_bits(), 0.0f64.to_bits());
    assert_eq!(Fraction::zero(), fraction(0.0));
}

#[test]
fn unit_interval_test_agrees_with_numeric_comparison() {
    let samples: [f64; 18] = [
        0.0,
        -0.0,
        f64::MIN_POSITIVE,
        5e-324,
        0.1,
        0.5,
        0.999_999_999_999_999_9,
        1.0,
        1.000_000_000_000_000_2,
        2.0,
        -5e-324,
        -0.5,
        -1.0,
        f64::MAX,
        f64::INFINITY,
        f64::NEG_INFINITY,
        f64::NAN,
        -f64::NAN,
    ];
    for value in samples {
        let expected = 0.0 <= value && value <= 1.0;
        assert_eq!(fraction(value).in_unit_interval(), expected, "{}", format!("{:?}", value));
    }
}

#[test]
fn unit_interval_bounds() {
    assert!(fraction(0.0).in_unit_interval());
    assert!(fraction(1.0).in_unit_interval());
    assert!(Fraction::from_bits(ONE_BITS).in_unit_interval());
    assert!(!Fraction::from_bits(ONE_BITS + 1).in_unit_interval());
    assert!(Fraction::from_bits(NEGATIVE_ZERO_BITS).in_unit_interval());
    assert!(!Fraction::from_bits(NEGATIVE_ZERO_BITS + 1).in_unit_interval());
    assert!(!Fraction::from_bits(u64::MAX).in_unit_interval());
}

#[test]
fn order_agrees_with_numeric_comparison_on_the_unit_interval() {
    let samples: [f64; 9] = [0.0, -0.0, 5e-324, f64::MIN_POSITIVE, 0.1, 0.3, 0.5, 0.75, 1.0];
    for a in samples {
        for b in samples {
            assert_eq!(
                fraction(a).at_most(fraction(b)),
                a <= b,
                "{}",
                format!("{:?} <= {:?}", a, b)
            );
        }
    }
}

#[test]
fn both_zeros_share_a_place() {
    assert!(fraction(0.0).at_most(fraction(-0.0)));
    assert!(fraction(-0.0).at_most(fraction(0.0)));
    assert!(fraction(-0.0).at_most(fraction(5e-324)));
    assert!(!fraction(5e-324).at_most(fraction(-0.0)));
}
