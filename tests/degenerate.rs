use vector2::degenerate::{degenerate_angle, degenerate_normalized};

fn b(v: f32) -> u32 {
    v.to_bits()
}

#[test]
fn angle_with_a_zero_length_vector_is_zero() {
    assert_eq!(degenerate_angle(b(0.0), b(1.0)), Some(b(0.0)));
    assert_eq!(degenerate_angle(b(5.0), b(0.0)), Some(b(0.0)));
    assert_eq!(degenerate_angle(b(0.0), b(0.0)), Some(b(0.0)));
    assert_eq!(degenerate_angle(b(-0.0), b(2.0)), Some(b(0.0)));
}

#[test]
fn angle_with_zero_and_infinite_lengths_is_zero() {
    assert_eq!(degenerate_angle(b(0.0), b(f32::INFINITY)), Some(b(0.0)));
    assert_eq!(degenerate_angle(b(f32::INFINITY), b(0.0)), Some(b(0.0)));
}

#[test]
fn angle_between_non_zero_vectors_is_computed() {
    assert_eq!(degenerate_angle(b(1.0), b(1.0)), None);
    assert_eq!(degenerate_angle(b(1e-30), b(1e-30)), None);
    assert_eq!(degenerate_angle(b(1e-40), b(3.0)), None);
}

#[test]
fn fallback_angle_is_positive_zero() {
    let z = degenerate_angle(b(0.0), b(1.0)).unwrap();
    assert_eq!(f32::from_bits(z), 0.0);
    assert!(f32::from_bits(z).is_sign_positive());
}

#[test]
fn normalizing_a_zero_length_vector_gives_the_zero_vector() {
    let z = degenerate_normalized(b(0.0)).unwrap();
    assert_eq!((z.x, z.y), (b(0.0), b(0.0)));
    let z = degenerate_normalized(b(-0.0)).unwrap();
    assert_eq!((z.x, z.y), (b(0.0), b(0.0)));
}

#[test]
fn normalizing_a_vector_with_length_divides() {
    assert!(degenerate_normalized(b(950.0)).is_none());
    assert!(degenerate_normalized(b(1e-40)).is_none());
    assert!(degenerate_normalized(b(f32::NAN)).is_none());
}
