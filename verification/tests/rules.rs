use rustracer_core::graphics::color::saturate;
use rustracer_core::graphics::texture::{wraps, Texture};
use rustracer_core::math::ordinal::{beyond_epsilon, near_zero, ordinal, pattern};
use rustracer_core::math::vector::{can_add, marks_point};

fn ord(x: f64) -> i64 {
    ordinal(x.to_bits())
}

fn back(k: i64) -> f64 {
    f64::from_bits(pattern(k))
}

#[test]
fn a_fourth_coordinate_of_one_marks_a_point() {
    assert!(marks_point(ord(1.0)));
    assert!(!marks_point(ord(0.0)));
    assert!(!marks_point(ord(-1.0)));
    assert!(!marks_point(ord(2.0)));
    assert!(!marks_point(ord(1.0) + 1));
    assert!(!marks_point(ord(f64::NAN)));
}

#[test]
fn two_points_cannot_be_added() {
    assert!(!can_add(ord(1.0), ord(1.0)));
}

#[test]
fn a_point_and_a_direction_can_be_added() {
    assert!(can_add(ord(1.0), ord(0.0)));
    assert!(can_add(ord(0.0), ord(1.0)));
    assert!(can_add(ord(0.0), ord(0.0)));
    assert!(can_add(ord(2.0), ord(1.0)));
    assert!(can_add(ord(1.0), ord(f64::NAN)));
}

#[test]
fn saturate_cuts_off_at_one() {
    assert_eq!(back(saturate(ord(1.5))), 1.0);
    assert_eq!(back(saturate(ord(2.0))), 1.0);
    assert_eq!(back(saturate(ord(f64::INFINITY))), 1.0);
    assert_eq!(back(saturate(ord(1.0))), 1.0);
    assert_eq!(back(saturate(ord(0.5))), 0.5);
    assert_eq!(back(saturate(ord(0.0))), 0.0);
}

#[test]
fn saturate_has_no_lower_bound() {
    assert_eq!(back(saturate(ord(-0.5))), -0.5);
    assert_eq!(back(saturate(ord(-7.0))), -7.0);
    assert_eq!(back(saturate(ord(f64::NEG_INFINITY))), f64::NEG_INFINITY);
    assert!(back(saturate(ord(f64::NAN))).is_nan());
}

#[test]
fn test_color_clamp() {
    let clamped: Vec<f64> = [1.5, 0.5, 2.0].iter().map(|c| back(saturate(ord(*c)))).collect();
    assert_eq!(clamped, vec![1.0, 0.5, 1.0]);
}

#[test]
fn a_coordinate_above_one_wraps() {
    assert!(wraps(ord(1.5)));
    assert!(wraps(ord(2.0)));
    assert!(wraps(ord(1.0) + 1));
    assert!(!wraps(ord(1.0)));
    assert!(!wraps(ord(0.5)));
    assert!(!wraps(ord(0.0)));
    assert!(!wraps(ord(-3.0)));
    assert!(!wraps(ord(f64::NAN)));
}

#[test]
fn sample_is_bounded_by_the_data() {
    let t = Texture::new(2, 2, vec![10u8, 11, 12, 13], String::new()).unwrap();
    assert_eq!(t.sample(0), Some(10));
    assert_eq!(t.sample(3), Some(13));
    assert_eq!(t.sample(4), None);
    assert_eq!(t.sample(usize::MAX), None);
    let empty = Texture::new(0, 0, Vec::<u8>::new(), String::new()).unwrap();
    assert_eq!(empty.sample(0), None);
}

/// Are two colours equal, channel by channel within epsilon?
fn same(a: [f64; 3], b: [f64; 3]) -> bool {
    (0..3).all(|k| near_zero(ord(a[k] - b[k])))
}

/// Do two colours differ by more than epsilon in some channel?
fn differ(a: [f64; 3], b: [f64; 3]) -> bool {
    (0..3).any(|k| beyond_epsilon(ord(a[k] - b[k])))
}

#[test]
fn test_color_partial_eq() {
    let color1 = [0.5, 0.5, 0.5];
    let color2 = [0.5, 0.5, 0.5];
    assert!(same(color1, color2));
}

#[test]
fn test_color_partial_ne() {
    let color1 = [0.5, 0.5, 0.5];
    let color2 = [0.5, 0.5, 0.6];
    assert!(differ(color1, color2));
    assert!(differ(color2, color1));
}

#[test]
fn equality() {
    let v1 = [1.0, 1.0, 1.0, 0.0];
    let v2 = [1.0, 1.0, 1.0, 0.0];
    let equal = (0..4).all(|k| near_zero(ord(v1[k] - v2[k])));
    assert!(equal)
}
