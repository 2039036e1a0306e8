use kord_model::double::Double;
use kord_model::double::DOUBLE_NEGATIVE_ZERO_BITS;
use kord_model::double::DOUBLE_ONE_BITS;
use kord_model::scalar::Scalar;
use kord_model::scalar::HALF_BITS;
use kord_model::scalar::NEGATIVE_INFINITY_BITS;
use kord_model::scalar::NEGATIVE_ZERO_BITS;
use kord_model::scalar::ONE_BITS;
use kord_model::scalar::POSITIVE_INFINITY_BITS;
use kord_model::tensor::Tensor2;
use kord_model::tensor::Tensor3;

fn scalar(value: f32) -> Scalar {
    Scalar::from_bits(value.to_bits())
}

#[test]
fn named_patterns_are_the_numbers_they_stand_for() {
    assert_eq!(f32::from_bits(ONE_BITS), 1.0);
    assert_eq!(f32::from_bits(HALF_BITS), 0.5);
    assert_eq!(f32::from_bits(POSITIVE_INFINITY_BITS), f32::INFINITY);
    assert_eq!(f32::from_bits(NEGATIVE_INFINITY_BITS), f32::NEG_INFINITY);
    assert_eq!(NEGATIVE_ZERO_BITS, (-0.0f32).to_bits());
}

#[test]
fn scalar_keeps_its_pattern() {
    for bits in [0u32, 1, 0x3f80_0000, 0x7fc0_0000, 0xffff_ffff] {
        assert_eq!(Scalar::from_bits(bits).to_bits(), bits);
    }
}

#[test]
fn finite_positive_numbers_are_recognised() {
    for v in [f32::MIN_POSITIVE, 1.0e-45, 0.5, 1.0, 123.5, f32::MAX] {
        assert!(scalar(v).check_positive_finite(), "{}", v);
        assert_eq!(scalar(v).check_positive_finite(), v.is_finite() && v > 0.0);
    }
    for v in [0.0f32, -0.0, -1.0e-45, -1.0, f32::MIN, f32::INFINITY, f32::NEG_INFINITY, f32::NAN, -f32::NAN] {
        assert!(!scalar(v).check_positive_finite(), "{}", v);
        assert_eq!(scalar(v).check_positive_finite(), v.is_finite() && v > 0.0);
    }
}

#[test]
fn probabilities_are_recognised() {
    for v in [0.0f32, -0.0, 1.0e-45, f32::MIN_POSITIVE, 0.25, 0.5, 0.99999994, 1.0] {
        assert!(scalar(v).check_probability(), "{}", v);
    }
    for v in [1.0000001f32, 2.0, f32::MAX, f32::INFINITY, -1.0e-45, -0.5, -1.0, f32::NEG_INFINITY, f32::NAN, -f32::NAN]
    {
        assert!(!scalar(v).check_probability(), "{}", v);
    }
}

#[test]
fn checks_agree_with_the_comparisons_on_a_sweep_of_patterns() {
    let mut bits: u32 = 0;
    loop {
        let v = f32::from_bits(bits);
        assert_eq!(Scalar::from_bits(bits).check_positive_finite(), v.is_finite() && v > 0.0);
        assert_eq!(Scalar::from_bits(bits).check_probability(), v >= 0.0 && v <= 1.0);
        match bits.checked_add(0x0001_0001) {
            Some(next) => bits = next,
            None => break,
        }
    }
}

#[test]
fn matrix_keeps_extent_and_elements() {
    let bits: Vec<u32> = (0..6u32).map(|i| (i as f32 * 1.5 - 2.0).to_bits()).collect();
    let t = Tensor2::from_bits(2, 3, bits.clone()).unwrap();
    assert_eq!(t.dims(), (2, 3));
    assert_eq!(t.to_bits(), bits);
    let copy = t.duplicate();
    assert_eq!(copy.dims(), (2, 3));
    assert_eq!(copy.to_bits(), bits);
}

#[test]
fn matrix_refuses_a_wrong_count() {
    assert!(Tensor2::from_bits(2, 3, vec![0; 5]).is_none());
    assert!(Tensor2::from_bits(2, 3, vec![0; 7]).is_none());
    assert!(Tensor2::from_bits(0, 3, vec![0; 1]).is_none());
    assert!(Tensor2::from_bits(usize::MAX, 2, vec![0; 2]).is_none());
    assert!(Tensor2::from_bits(usize::MAX, usize::MAX, vec![0; 1]).is_none());
}

#[test]
fn matrix_may_be_empty() {
    let t = Tensor2::from_bits(0, 3, vec![]).unwrap();
    assert_eq!(t.dims(), (0, 3));
    assert!(t.to_bits().is_empty());
    let t = Tensor2::from_bits(4, 0, vec![]).unwrap();
    assert_eq!(t.dims(), (4, 0));
}

#[test]
fn matrix_refuses_extents_that_cannot_be_indexed() {
    assert!(Tensor2::from_bits(0, usize::MAX, vec![]).is_none());
    assert!(Tensor2::from_bits(usize::MAX, 0, vec![]).is_none());
    assert!(Tensor2::from_bits(0, isize::MAX as usize, vec![]).is_some());
}

#[test]
fn cube_keeps_extent_and_elements() {
    let bits: Vec<u32> = (0..24u32).map(|i| (i as f32).to_bits()).collect();
    let t = Tensor3::from_bits(2, 3, 4, bits.clone()).unwrap();
    assert_eq!(t.dims(), (2, 3, 4));
    assert_eq!(t.to_bits(), bits);
}

#[test]
fn cube_refuses_a_wrong_count_and_extents_that_cannot_be_indexed() {
    assert!(Tensor3::from_bits(2, 3, 4, vec![0; 23]).is_none());
    assert!(Tensor3::from_bits(2, 3, 4, vec![0; 25]).is_none());
    assert!(Tensor3::from_bits(usize::MAX, usize::MAX, 0, vec![]).is_none());
    assert!(Tensor3::from_bits(usize::MAX, 0, 2, vec![]).is_none());
    assert!(Tensor3::from_bits(0, 5, 2, vec![]).is_some());
}

#[test]
fn double_patterns_are_the_numbers_they_stand_for() {
    assert_eq!(f64::from_bits(DOUBLE_ONE_BITS), 1.0);
    assert_eq!(DOUBLE_NEGATIVE_ZERO_BITS, (-0.0f64).to_bits());
    for bits in [0u64, 1, DOUBLE_ONE_BITS, u64::MAX] {
        assert_eq!(Double::from_bits(bits).to_bits(), bits);
    }
}

#[test]
fn double_probabilities_are_recognised() {
    for v in [0.0f64, -0.0, 5e-324, f64::MIN_POSITIVE, 0.1, 0.5, 0.9999999999999999, 1.0] {
        assert!(Double::from_bits(v.to_bits()).check_probability(), "{}", v);
    }
    for v in [1.0000000000000002f64, 2.0, f64::MAX, f64::INFINITY, -5e-324, -0.5, f64::NEG_INFINITY, f64::NAN, -f64::NAN] {
        assert!(!Double::from_bits(v.to_bits()).check_probability(), "{}", v);
    }
}

#[test]
fn double_check_agrees_with_the_comparisons_on_a_sweep_of_patterns() {
    let mut bits: u64 = 0;
    loop {
        let v = f64::from_bits(bits);
        assert_eq!(Double::from_bits(bits).check_probability(), v >= 0.0 && v <= 1.0);
        match bits.checked_add(0x0000_4000_0100_0001) {
            Some(next) => bits = next,
            None => break,
        }
    }
}
