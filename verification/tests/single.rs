use fsdr_blocks::math::complex::Complex;
use fsdr_blocks::math::single::Single;

fn s(x: f32) -> Single {
    Single::from_bits(x.to_bits())
}

fn f(x: Single) -> f32 {
    f32::from_bits(x.to_bits())
}

fn samples() -> Vec<f32> {
    vec![
        0.0,
        -0.0,
        1.0,
        -1.0,
        2.0,
        0.5,
        -0.5,
        5.0,
        -5.0,
        10.0,
        1.0e-45,
        -1.0e-45,
        f32::MIN_POSITIVE,
        -f32::MIN_POSITIVE,
        f32::MAX,
        f32::MIN,
        f32::INFINITY,
        f32::NEG_INFINITY,
        f32::NAN,
        -f32::NAN,
        f32::from_bits(0x7f80_0001),
        f32::from_bits(0xffff_ffff),
        f32::EPSILON,
        3.4e38,
        -3.4e38,
        1.17e-38,
    ]
}

#[test]
fn constants_are_the_numbers_they_name() {
    assert_eq!(Single::zero().to_bits(), 0.0f32.to_bits());
    assert_eq!(Single::one().to_bits(), 1.0f32.to_bits());
    assert_eq!(Single::two().to_bits(), 2.0f32.to_bits());
    assert_eq!(Complex::zero().re.to_bits(), 0.0f32.to_bits());
    assert_eq!(Complex::zero().im.to_bits(), 0.0f32.to_bits());
    let c = Complex::new(s(1.5), s(-2.5));
    assert_eq!(f(c.re), 1.5);
    assert_eq!(f(c.im), -2.5);
}

#[test]
fn bits_round_trip() {
    for x in samples() {
        assert_eq!(Single::from_bits(x.to_bits()).to_bits(), x.to_bits());
    }
}

#[test]
fn nan_is_recognised() {
    for x in samples() {
        assert_eq!(s(x).is_nan(), x.is_nan(), "{x}");
    }
}

#[test]
fn finite_is_recognised() {
    for x in samples() {
        assert_eq!(s(x).is_finite(), x.is_finite(), "{x}");
    }
}

#[test]
fn ordering_agrees_with_the_hardware() {
    for a in samples() {
        for b in samples() {
            assert_eq!(s(a).lt(s(b)), a < b, "{a} < {b}");
            assert_eq!(s(a).le(s(b)), a <= b, "{a} <= {b}");
            assert_eq!(s(a).gt(s(b)), a > b, "{a} > {b}");
            assert_eq!(s(a).ge(s(b)), a >= b, "{a} >= {b}");
            assert_eq!(s(a).equals(s(b)), a == b, "{a} == {b}");
        }
    }
}

#[test]
fn both_zeros_are_equal_and_unordered() {
    assert!(s(0.0).equals(s(-0.0)));
    assert!(!s(0.0).lt(s(-0.0)));
    assert!(!s(-0.0).lt(s(0.0)));
    assert!(s(-0.0).le(s(0.0)));
}

#[test]
fn nan_compares_false_with_everything() {
    let nan = s(f32::NAN);
    for x in samples() {
        assert!(!nan.lt(s(x)));
        assert!(!nan.le(s(x)));
        assert!(!nan.gt(s(x)));
        assert!(!nan.ge(s(x)));
        assert!(!nan.equals(s(x)));
    }
}

#[test]
fn negation_flips_the_sign_bit() {
    for x in samples() {
        assert_eq!(s(x).neg().to_bits(), (-x).to_bits(), "{x}");
        assert_eq!(s(x).neg().neg().to_bits(), x.to_bits());
    }
    assert_eq!(s(0.0).neg().to_bits(), 0x8000_0000);
}
