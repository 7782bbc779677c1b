use movie_engine::model::scalar::{Double, Single};

fn double(x: f64) -> Double {
    Double::from_bits(x.to_bits())
}

fn single(x: f32) -> Single {
    Single::from_bits(x.to_bits())
}

#[test]
fn double_order_follows_the_numbers() {
    let values = [
        -1.0e300,
        -7.5,
        -0.0,
        0.0,
        1.0e-310,
        -1.0e-310,
        3.0,
        7.0,
        1.0e300,
        f64::MAX,
        f64::MIN,
        f64::MIN_POSITIVE,
        f64::INFINITY,
        f64::NEG_INFINITY,
        f64::NAN,
        -f64::NAN,
    ];
    for a in values {
        for b in values {
            assert_eq!(double(a).ge(&double(b)), a >= b, "{} >= {}", a, b);
            assert_eq!(double(a).le(&double(b)), a <= b, "{} <= {}", a, b);
            if !a.is_nan() && !b.is_nan() {
                assert_eq!(double(a).order_key() < double(b).order_key(), a < b, "{} < {}", a, b);
            }
        }
        assert_eq!(double(a).is_nan(), a.is_nan());
        assert_eq!(double(a).to_bits(), a.to_bits());
    }
}

#[test]
fn single_order_follows_the_numbers() {
    let values = [
        -1.0e30f32,
        -7.5,
        -0.0,
        0.0,
        1.0e-40,
        -1.0e-40,
        0.96,
        1.0,
        f32::MAX,
        f32::MIN,
        f32::INFINITY,
        f32::NEG_INFINITY,
    ];
    for a in values {
        for b in values {
            assert_eq!(single(a).order_key() < single(b).order_key(), a < b, "{} < {}", a, b);
            assert_eq!(single(a).order_key() == single(b).order_key(), a == b, "{} == {}", a, b);
        }
        assert!(!single(a).is_nan());
        assert_eq!(single(a).to_bits(), a.to_bits());
    }
    assert!(single(f32::NAN).is_nan());
    assert!(single(-f32::NAN).is_nan());
}

#[test]
fn order_keys_are_the_signed_magnitudes() {
    assert_eq!(Double::from_bits(0).order_key(), 0);
    assert_eq!(Double::from_bits(0x8000_0000_0000_0000).order_key(), 0);
    assert_eq!(Double::from_bits(5).order_key(), 5);
    assert_eq!(Double::from_bits(0x8000_0000_0000_0005).order_key(), -5);
    assert_eq!(Double::from_bits(0x7ff0_0000_0000_0000).order_key(), 0x7ff0_0000_0000_0000);
    assert_eq!(Single::from_bits(0x3f80_0000).order_key(), 0x3f80_0000);
    assert_eq!(Single::from_bits(0xbf80_0000).order_key(), -0x3f80_0000);
    assert!(!Double::from_bits(0x7ff0_0000_0000_0000).is_nan());
    assert!(Double::from_bits(0x7ff0_0000_0000_0001).is_nan());
    assert!(!Single::from_bits(0xff80_0000).is_nan());
    assert!(Single::from_bits(0xff80_0001).is_nan());
}
