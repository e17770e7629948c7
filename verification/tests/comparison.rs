use std::cmp::Ordering;
use vec3::Vec3;

#[test]
fn equality_is_exact_in_every_component() {
    let a: Vec3<f32> = Vec3::new(1.0, 2.0, 3.0);
    assert!(a == Vec3::new(1.0, 2.0, 3.0));
    assert!(a != Vec3::new(1.0000001, 2.0, 3.0));
    assert!(a != Vec3::new(1.0, 2.0000002, 3.0));
    assert!(a != Vec3::new(1.0, 2.0, 3.0000002));
}

#[test]
fn equality_is_that_of_the_scalar() {
    let a: Vec3<f32> = Vec3::new(0.0, 1.0, 2.0);
    let b: Vec3<f32> = Vec3::new(-0.0, 1.0, 2.0);
    assert!(a == b);
    let n: Vec3<f32> = Vec3::new(f32::NAN, 1.0, 2.0);
    assert!(n != n);
    assert!(!(n == n));
}

#[test]
fn order_is_lexicographic() {
    let a: Vec3<f32> = Vec3::new(1.0, 2.0, 3.0);
    assert_eq!(a.partial_cmp(&Vec3::new(1.0, 2.0, 3.0)), Some(Ordering::Equal));
    assert_eq!(a.partial_cmp(&Vec3::new(1.0, 2.0, 4.0)), Some(Ordering::Less));
    assert_eq!(a.partial_cmp(&Vec3::new(1.0, 1.0, 9.0)), Some(Ordering::Greater));
    assert_eq!(a.partial_cmp(&Vec3::new(2.0, 0.0, 0.0)), Some(Ordering::Less));
    assert_eq!(a.partial_cmp(&Vec3::new(0.0, 9.0, 9.0)), Some(Ordering::Greater));
    assert!(a < Vec3::new(1.0, 2.0, 4.0));
    assert!(a <= Vec3::new(1.0, 2.0, 3.0));
    assert!(a > Vec3::new(1.0, 1.0, 9.0));
    assert!(a >= Vec3::new(1.0, 2.0, 3.0));
}

#[test]
fn order_stops_at_the_first_component_that_decides() {
    let a: Vec3<f32> = Vec3::new(1.0, f32::NAN, 3.0);
    let b: Vec3<f32> = Vec3::new(2.0, 0.0, 0.0);
    assert_eq!(a.partial_cmp(&b), Some(Ordering::Less));
    assert_eq!(b.partial_cmp(&a), Some(Ordering::Greater));
}

#[test]
fn order_is_undefined_where_the_deciding_component_is_unordered() {
    let a: Vec3<f32> = Vec3::new(1.0, f32::NAN, 3.0);
    let b: Vec3<f32> = Vec3::new(1.0, 0.0, 0.0);
    assert_eq!(a.partial_cmp(&b), None);
    assert!(!(a < b));
    assert!(!(a > b));
    assert!(!(a <= b));
    assert!(!(a >= b));
    let c: Vec3<f32> = Vec3::new(1.0, 2.0, f32::NAN);
    assert_eq!(c.partial_cmp(&c), None);
}

#[test]
fn comparison_works_for_integer_scalars() {
    let a: Vec3<u8> = Vec3::new(1, 2, 3);
    let b: Vec3<u8> = Vec3::new(1, 3, 0);
    assert!(a != b);
    assert!(a < b);
    assert_eq!(b.partial_cmp(&a), Some(Ordering::Greater));
    assert_eq!(a.partial_cmp(&a), Some(Ordering::Equal));
}
