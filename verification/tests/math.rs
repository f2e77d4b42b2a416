use rayquaza::clamp;
use rayquaza::Scalar;
use rayquaza::Vector2;

fn s(value: f32) -> Scalar {
    Scalar::new(value.to_bits())
}

#[test]
fn test_vector2_new() {
    assert_eq!(Vector2::new(s(0.0), s(0.0)), Vector2::zero());
    assert_eq!(Vector2::new(s(1.0), s(1.0)), Vector2::one());
}

#[test]
fn test_vector2_from_ref() {
    assert_eq!(Vector2::from(&Vector2::zero()), Vector2::zero());
    assert_eq!(Vector2::from(&Vector2::one()), Vector2::one());
}

#[test]
fn test_vector2_from_f32_array() {
    assert_eq!(Vector2::from([s(0.0), s(0.0)]), Vector2::zero());
    assert_eq!(Vector2::from([s(1.0), s(1.0)]), Vector2::one());
}

#[test]
fn test_vector2_from_f32_slice() {
    assert_eq!(Vector2::from((s(0.0), s(0.0))), Vector2::zero());
    assert_eq!(Vector2::from((s(1.0), s(1.0))), Vector2::one());
}

#[test]
fn test_vector2_into_f32_array() {
    let value: [Scalar; 2] = Vector2::zero().into();
    assert_eq!(value, [s(0.0), s(0.0)]);
    let value: [Scalar; 2] = Vector2::one().into();
    assert_eq!(value, [s(1.0), s(1.0)]);
}

#[test]
fn test_vector2_into_f32_slice() {
    let value: (Scalar, Scalar) = Vector2::zero().into();
    assert_eq!(value, (s(0.0), s(0.0)));
    let value: (Scalar, Scalar) = Vector2::one().into();
    assert_eq!(value, (s(1.0), s(1.0)));
}

#[test]
fn test_scalar_carries_bits() {
    // The scalar carries the IEEE-754 bit pattern unchanged.
    let x = 3.5f32;
    assert_eq!(f32::from_bits(s(x).bits), x);
}

#[test]
fn test_clamp() {
    assert_eq!(clamp(200, 100, 300), 200);
    assert_eq!(clamp(400, 100, 300), 300);
    assert_eq!(clamp(0, 100, 300), 100);
}

#[test]
fn test_clamp_at_bounds() {
    // Values exactly at a bound are returned unchanged.
    assert_eq!(clamp(100, 100, 300), 100);
    assert_eq!(clamp(300, 100, 300), 300);
}
