use llama_core::quant::{QuantError, QuantizedTensor};

#[test]
fn positive_scale_is_accepted() {
    let t = QuantizedTensor::new(vec![-3, 0, 5], 0.5f32.to_bits(), 2).unwrap();
    assert_eq!(t.len(), 3);
    assert_eq!(t.scale_bits, 0.5f32.to_bits());
    assert_eq!(t.zero_point, 2);
    assert_eq!(t.data, vec![-3, 0, 5]);
}

#[test]
fn zero_scale_is_refused() {
    let r = QuantizedTensor::new(vec![1], 0.0f32.to_bits(), 0);
    assert_eq!(r.unwrap_err(), QuantError::NonPositiveScale);
}

#[test]
fn negative_scale_is_refused() {
    let r = QuantizedTensor::new(vec![1], (-0.5f32).to_bits(), 0);
    assert_eq!(r.unwrap_err(), QuantError::NonPositiveScale);
    let r = QuantizedTensor::new(vec![1], (-0.0f32).to_bits(), 0);
    assert_eq!(r.unwrap_err(), QuantError::NonPositiveScale);
}

#[test]
fn nan_scale_is_refused() {
    let r = QuantizedTensor::new(vec![1], f32::NAN.to_bits(), 0);
    assert_eq!(r.unwrap_err(), QuantError::NonPositiveScale);
}

#[test]
fn smallest_and_largest_positive_scales_are_accepted() {
    assert!(QuantizedTensor::new(vec![], 1, 0).is_ok());
    assert!(QuantizedTensor::new(vec![], f32::MAX.to_bits(), 0).is_ok());
}

#[test]
fn offset_subtracts_zero_point() {
    let t = QuantizedTensor::new(vec![-128, 0, 127], 0.1f32.to_bits(), 10).unwrap();
    assert_eq!(t.offset(0), -138);
    assert_eq!(t.offset(1), -10);
    assert_eq!(t.offset(2), 117);
    let wide = QuantizedTensor::new(vec![-128], 1.0f32.to_bits(), i32::MAX).unwrap();
    assert_eq!(wide.offset(0), -128 - i32::MAX as i64);
}

#[test]
fn dequantized_value_stays_within_one_step() {
    let scale = 0.5f32;
    let t = QuantizedTensor::new(vec![-4, 0, 3], scale.to_bits(), -1).unwrap();
    let values = [-1.6f32, 0.4, 2.1];
    for (i, x) in values.iter().enumerate() {
        let back = t.offset(i) as f32 * f32::from_bits(t.scale_bits);
        assert!((x - back).abs() <= scale);
    }
}

#[test]
fn duplicate_keeps_every_field() {
    let t = QuantizedTensor::new(vec![9, 8], 2.0f32.to_bits(), 3).unwrap();
    let c = t.duplicate();
    assert_eq!(c.data, t.data);
    assert_eq!(c.scale_bits, t.scale_bits);
    assert_eq!(c.zero_point, t.zero_point);
    assert_ne!(c.data.as_ptr(), t.data.as_ptr());
}
