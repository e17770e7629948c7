use vec3::Axis;
use vec3::Vec3;

#[test]
fn component() {
    let a: Vec3<f32> = Vec3::new(3.0, 2.0, 1.0);
    assert_eq!(a.component(Axis::X), a.x);
    assert_eq!(a.component(Axis::Y), a.y);
    assert_eq!(a.component(Axis::Z), a.z);
}

#[test]
fn set_component() {
    let mut a: Vec3<f32> = Vec3::new(3.0, 2.0, 1.0);
    a.set_component(Axis::X, 4.0);
    assert_eq!(a, Vec3::new(4.0, 2.0, 1.0));

    a.set_component(Axis::Y, 5.0);
    assert_eq!(a, Vec3::new(4.0, 5.0, 1.0));

    a.set_component(Axis::Z, 6.0);
    assert_eq!(a, Vec3::new(4.0, 5.0, 6.0));
}

#[test]
fn with_component() {
    let a: Vec3<f32> = Vec3::new(3.0, 2.0, 1.0);
    assert_eq!(a.with_x(4.0), Vec3::new(4.0, 2.0, 1.0));
    assert_eq!(a.with_y(4.0), Vec3::new(3.0, 4.0, 1.0));
    assert_eq!(a.with_z(4.0), Vec3::new(3.0, 2.0, 4.0));
}

#[test]
fn new_keeps_components_as_given() {
    let a: Vec3<f32> = Vec3::new(-1.5, 0.0, 1.0e30);
    assert_eq!(a.x, -1.5);
    assert_eq!(a.y, 0.0);
    assert_eq!(a.z, 1.0e30);
}

#[test]
fn new_does_not_normalize_or_validate() {
    let a: Vec3<f32> = Vec3::new(f32::NAN, f32::INFINITY, -0.0);
    assert!(a.x.is_nan());
    assert_eq!(a.y, f32::INFINITY);
    assert!(a.z == 0.0 && a.z.is_sign_negative());
}

#[test]
fn from_float_fills_all_three_components() {
    let a: Vec3<f32> = Vec3::from_float(2.5);
    assert_eq!(a.x, 2.5);
    assert_eq!(a.y, 2.5);
    assert_eq!(a.z, 2.5);
    assert_eq!(a, Vec3::new(2.5, 2.5, 2.5));
}

#[test]
fn component_reads_each_axis_of_distinct_components() {
    let a: Vec3<f32> = Vec3::new(10.0, 20.0, 30.0);
    assert_eq!(a.component(Axis::X), 10.0);
    assert_eq!(a.component(Axis::Y), 20.0);
    assert_eq!(a.component(Axis::Z), 30.0);
}

#[test]
fn set_component_then_component_reads_the_new_value() {
    let axes = [Axis::X, Axis::Y, Axis::Z];
    for k in axes {
        let mut a: Vec3<f32> = Vec3::new(3.0, 2.0, 1.0);
        a.set_component(k, 9.0);
        assert_eq!(a.component(k), 9.0);
    }
}

#[test]
fn set_component_leaves_the_other_components() {
    let mut a: Vec3<f32> = Vec3::new(3.0, 2.0, 1.0);
    a.set_component(Axis::X, 9.0);
    assert_eq!(a.component(Axis::Y), 2.0);
    assert_eq!(a.component(Axis::Z), 1.0);

    let mut b: Vec3<f32> = Vec3::new(3.0, 2.0, 1.0);
    b.set_component(Axis::Y, 9.0);
    assert_eq!(b.component(Axis::X), 3.0);
    assert_eq!(b.component(Axis::Z), 1.0);

    let mut c: Vec3<f32> = Vec3::new(3.0, 2.0, 1.0);
    c.set_component(Axis::Z, 9.0);
    assert_eq!(c.component(Axis::X), 3.0);
    assert_eq!(c.component(Axis::Y), 2.0);
}

#[test]
fn with_x_replaces_only_x_and_leaves_the_receiver() {
    let a: Vec3<f32> = Vec3::new(3.0, 2.0, 1.0);
    let b = a.with_x(7.0);
    assert_eq!(b.x, 7.0);
    assert_eq!(b.y, a.y);
    assert_eq!(b.z, a.z);
    assert_eq!(a, Vec3::new(3.0, 2.0, 1.0));
}

#[test]
fn with_y_and_with_z_leave_the_receiver() {
    let a: Vec3<f32> = Vec3::new(3.0, 2.0, 1.0);
    let b = a.with_y(7.0);
    let c = a.with_z(8.0);
    assert_eq!(b, Vec3::new(3.0, 7.0, 1.0));
    assert_eq!(c, Vec3::new(3.0, 2.0, 8.0));
    assert_eq!(a, Vec3::new(3.0, 2.0, 1.0));
}

#[test]
fn copies_are_independent() {
    let a: Vec3<f32> = Vec3::new(3.0, 2.0, 1.0);
    let mut b = a;
    b.set_component(Axis::X, 0.0);
    assert_eq!(a.x, 3.0);
    assert_eq!(b.x, 0.0);
    let c = a.clone();
    assert_eq!(c, a);
}

#[test]
fn accessors_work_for_integer_scalars() {
    let mut a: Vec3<i32> = Vec3::new(1, 2, 3);
    assert_eq!(a.component(Axis::Y), 2);
    a.set_component(Axis::Z, -7);
    assert_eq!(a, Vec3::new(1, 2, -7));
    assert_eq!(a.with_x(0), Vec3::new(0, 2, -7));
    assert_eq!(Vec3::from_float(4u8), Vec3::new(4u8, 4u8, 4u8));
}
