use volume_sync::level::{clamp_level, Level, MAX_LEVEL_BITS};

fn clamp(v: f32) -> f32 {
    f32::from_bits(clamp_level(Level::from_bits(v.to_bits())).to_bits())
}

#[test]
fn ceiling_is_three_tenths() {
    assert_eq!(MAX_LEVEL_BITS, 0.3f32.to_bits());
}

#[test]
fn requests_above_ceiling_saturate() {
    assert_eq!(clamp(0.9), 0.3);
    assert_eq!(clamp(1.0), 0.3);
    assert_eq!(clamp(250.0), 0.3);
    assert_eq!(clamp(f32::INFINITY), 0.3);
}

#[test]
fn negative_requests_become_zero() {
    assert_eq!(clamp(-0.5), 0.0);
    assert_eq!(clamp(f32::NEG_INFINITY), 0.0);
    assert_eq!(clamp(-0.0).to_bits(), 0.0f32.to_bits());
}

#[test]
fn requests_in_range_are_kept() {
    assert_eq!(clamp(0.0), 0.0);
    assert_eq!(clamp(0.125), 0.125);
    assert_eq!(clamp(0.3), 0.3);
    assert_eq!(clamp(0.2999), 0.2999);
}

#[test]
fn clamp_agrees_with_float_clamp() {
    for v in [-3.0f32, -0.01, 0.0, 0.01, 0.1, 0.29, 0.3, 0.31, 0.5, 1.0, 7.5] {
        assert_eq!(clamp(v), v.clamp(0.0, 0.3));
    }
}

#[test]
fn nan_is_not_a_number() {
    assert!(!Level::from_bits(f32::NAN.to_bits()).is_number());
    assert!(!Level::from_bits((-f32::NAN).to_bits()).is_number());
    assert!(Level::from_bits(0.5f32.to_bits()).is_number());
    assert!(Level::from_bits(f32::INFINITY.to_bits()).is_number());
}
