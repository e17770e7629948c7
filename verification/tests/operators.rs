use vec3::Vec3;

const ONE: Vec3<f32> = Vec3 { x: 1.0, y: 1.0, z: 1.0 };

#[test]
fn add() {
    let a: Vec3<f32> = Vec3::new(0.0, 1.0, 2.0);
    let b: Vec3<f32> = Vec3::new(3.0, 4.0, 5.0);
    assert_eq!(&a + &b, Vec3::new(3.0, 5.0, 7.0));
    assert_eq!(a + &b, Vec3::new(3.0, 5.0, 7.0));
    assert_eq!(&a + b, Vec3::new(3.0, 5.0, 7.0));
    assert_eq!(a + b, Vec3::new(3.0, 5.0, 7.0));

    // Test for RHS value type
    {
        let mut c = ONE;
        c += a;
        assert_eq!(c, Vec3::new(1.0, 2.0, 3.0));
    }

    // Test for RHS borrowed reference
    {
        let mut c = ONE;
        c += &a;
        assert_eq!(c, Vec3::new(1.0, 2.0, 3.0));
    }
}

#[test]
fn subtract() {
    let a: Vec3<f32> = Vec3::new(0.0, 1.0, 2.0);
    let b: Vec3<f32> = Vec3::new(3.0, 4.0, 5.0);
    assert_eq!(&a - &b, Vec3::new(-3.0, -3.0, -3.0));
    assert_eq!(a - &b, Vec3::new(-3.0, -3.0, -3.0));
    assert_eq!(&a - b, Vec3::new(-3.0, -3.0, -3.0));
    assert_eq!(a - b, Vec3::new(-3.0, -3.0, -3.0));

    // Test for RHS value type
    {
        let mut c = ONE;
        c -= a;
        assert_eq!(c, Vec3::new(1.0, 0.0, -1.0));
    }

    // Test for RHS borrowed reference
    {
        let mut c = ONE;
        c -= &a;
        assert_eq!(c, Vec3::new(1.0, 0.0, -1.0));
    }
}

#[test]
fn multiply() {
    let a: Vec3<f32> = Vec3::new(0.0, 1.0, 2.0);
    let b: Vec3<f32> = Vec3::new(3.0, 4.0, 5.0);
    assert_eq!(&a * &b, Vec3::new(0.0, 4.0, 10.0));
    assert_eq!(a * &b, Vec3::new(0.0, 4.0, 10.0));
    assert_eq!(&a * b, Vec3::new(0.0, 4.0, 10.0));
    assert_eq!(a * b, Vec3::new(0.0, 4.0, 10.0));

    // Test for RHS value type
    {
        let mut c: Vec3<f32> = Vec3::from_float(2.0);
        c *= a;
        assert_eq!(c, a * 2.0);
    }

    // Test for RHS borrowed reference
    {
        let mut c: Vec3<f32> = Vec3::from_float(2.0);
        c *= &a;
        assert_eq!(c, a * 2.0);
    }
}

#[test]
fn divide() {
    let a: Vec3<f32> = Vec3::new(1.0, 1.0, 2.0);
    let b: Vec3<f32> = Vec3::new(3.0, 4.0, 5.0);
    assert_eq!(&a / &b, Vec3::new(1.0 / 3.0, 1.0 / 4.0, 2.0 / 5.0));
    assert_eq!(a / &b, Vec3::new(1.0 / 3.0, 1.0 / 4.0, 2.0 / 5.0));
    assert_eq!(&a / b, Vec3::new(1.0 / 3.0, 1.0 / 4.0, 2.0 / 5.0));
    assert_eq!(a / b, Vec3::new(1.0 / 3.0, 1.0 / 4.0, 2.0 / 5.0));

    // Test for RHS value type
    {
        let mut c = ONE;
        c /= a;
        assert_eq!(c, Vec3::new(1.0, 1.0, 0.5));
    }

    // Test for RHS borrowed reference
    {
        let mut c = ONE;
        c /= &a;
        assert_eq!(c, Vec3::new(1.0, 1.0, 0.5));
    }
}

#[test]
fn negate_by_value_and_by_reference() {
    let a: Vec3<f32> = Vec3::new(0.5, -1.0, 2.0);
    assert_eq!(-&a, Vec3::new(-0.5, 1.0, -2.0));
    assert_eq!(-a, Vec3::new(-0.5, 1.0, -2.0));
}

#[test]
fn negate_flips_the_sign_of_zero() {
    let a: Vec3<f32> = Vec3::new(0.0, -0.0, 1.0);
    let n = -a;
    assert!(n.x.is_sign_negative());
    assert!(n.y.is_sign_positive());
    assert_eq!(n.z, -1.0);
}

#[test]
fn scalar_on_the_right_is_broadcast() {
    let a: Vec3<f32> = Vec3::new(1.0, 2.0, 4.0);
    assert_eq!(&a + 1.5, Vec3::new(2.5, 3.5, 5.5));
    assert_eq!(a + 1.5, Vec3::new(2.5, 3.5, 5.5));
    assert_eq!(&a - 1.5, Vec3::new(-0.5, 0.5, 2.5));
    assert_eq!(a - 1.5, Vec3::new(-0.5, 0.5, 2.5));
    assert_eq!(&a * 3.0, Vec3::new(3.0, 6.0, 12.0));
    assert_eq!(a * 3.0, Vec3::new(3.0, 6.0, 12.0));
    assert_eq!(&a / 2.0, Vec3::new(0.5, 1.0, 2.0));
    assert_eq!(a / 2.0, Vec3::new(0.5, 1.0, 2.0));
}

#[test]
fn scalar_on_the_right_equals_the_broadcast_vector() {
    let a: Vec3<f32> = Vec3::new(1.0, 2.0, 4.0);
    let s: f32 = 0.3;
    assert_eq!(a + s, a + Vec3::from_float(s));
    assert_eq!(a - s, a - Vec3::from_float(s));
    assert_eq!(a * s, a * Vec3::from_float(s));
    assert_eq!(a / s, a / Vec3::from_float(s));
}

#[test]
fn components_do_not_interact() {
    let a: Vec3<f32> = Vec3::new(1.0, 10.0, 100.0);
    let b: Vec3<f32> = Vec3::new(2.0, 3.0, 4.0);
    let changed = b.with_y(-3.0);
    assert_eq!((a + changed).x, (a + b).x);
    assert_eq!((a + changed).z, (a + b).z);
    assert_eq!((a * changed).x, (a * b).x);
    assert_eq!((a * changed).z, (a * b).z);
    assert_eq!((a * changed).y, -30.0);
}

#[test]
fn operands_are_left_unchanged() {
    let a: Vec3<f32> = Vec3::new(0.0, 1.0, 2.0);
    let b: Vec3<f32> = Vec3::new(3.0, 4.0, 5.0);
    let _ = &a + &b;
    let _ = &a * &b;
    let _ = -&a;
    assert_eq!(a, Vec3::new(0.0, 1.0, 2.0));
    assert_eq!(b, Vec3::new(3.0, 4.0, 5.0));
}

#[test]
fn division_by_zero_follows_the_scalar() {
    let a: Vec3<f32> = Vec3::new(1.0, -1.0, 0.0);
    let q = a / Vec3::from_float(0.0);
    assert_eq!(q.x, f32::INFINITY);
    assert_eq!(q.y, f32::NEG_INFINITY);
    assert!(q.z.is_nan());
    let r = a / 0.0;
    assert_eq!(r.x, f32::INFINITY);
    assert_eq!(r.y, f32::NEG_INFINITY);
    assert!(r.z.is_nan());
}

#[test]
fn overflow_follows_the_scalar() {
    let a: Vec3<f32> = Vec3::from_float(f32::MAX);
    let s = a + a;
    assert_eq!(s, Vec3::from_float(f32::INFINITY));
    let p = a * -2.0;
    assert_eq!(p, Vec3::from_float(f32::NEG_INFINITY));
}

#[test]
fn not_a_number_stays_in_its_component() {
    let a: Vec3<f32> = Vec3::new(f32::NAN, 1.0, 2.0);
    let b: Vec3<f32> = Vec3::new(1.0, 1.0, 1.0);
    let s = a + b;
    assert!(s.x.is_nan());
    assert_eq!(s.y, 2.0);
    assert_eq!(s.z, 3.0);
    let d = b - a;
    assert!(d.x.is_nan());
    assert_eq!(d.y, 0.0);
    assert_eq!(d.z, -1.0);
}

#[test]
fn compound_assignment_by_value_and_by_reference_agree() {
    let a: Vec3<f32> = Vec3::new(1.5, -2.0, 8.0);
    let b: Vec3<f32> = Vec3::new(0.5, 4.0, -2.0);

    let mut by_value = a;
    by_value += b;
    let mut by_reference = a;
    by_reference += &b;
    assert_eq!(by_value, by_reference);
    assert_eq!(by_value, Vec3::new(2.0, 2.0, 6.0));

    let mut by_value = a;
    by_value -= b;
    let mut by_reference = a;
    by_reference -= &b;
    assert_eq!(by_value, by_reference);
    assert_eq!(by_value, Vec3::new(1.0, -6.0, 10.0));

    let mut by_value = a;
    by_value *= b;
    let mut by_reference = a;
    by_reference *= &b;
    assert_eq!(by_value, by_reference);
    assert_eq!(by_value, Vec3::new(0.75, -8.0, -16.0));

    let mut by_value = a;
    by_value /= b;
    let mut by_reference = a;
    by_reference /= &b;
    assert_eq!(by_value, by_reference);
    assert_eq!(by_value, Vec3::new(3.0, -0.5, -4.0));
}

#[test]
fn compound_assignment_leaves_the_right_operand() {
    let b: Vec3<f32> = Vec3::new(0.5, 4.0, -2.0);
    let mut a: Vec3<f32> = Vec3::new(1.0, 1.0, 1.0);
    a += &b;
    a *= b;
    assert_eq!(b, Vec3::new(0.5, 4.0, -2.0));
    assert_eq!(a, Vec3::new(0.75, 20.0, 2.0));
}

#[test]
fn integer_vectors_use_integer_arithmetic() {
    let a: Vec3<i32> = Vec3::new(7, -7, 9);
    let b: Vec3<i32> = Vec3::new(2, 2, -4);
    assert_eq!(a + b, Vec3::new(9, -5, 5));
    assert_eq!(a - b, Vec3::new(5, -9, 13));
    assert_eq!(a * b, Vec3::new(14, -14, -36));
    assert_eq!(a / b, Vec3::new(3, -3, -2));
    assert_eq!(-a, Vec3::new(-7, 7, -9));
    assert_eq!(a * 3, Vec3::new(21, -21, 27));
    assert_eq!(&a / 2, Vec3::new(3, -3, 4));
    let mut c = a;
    c -= b;
    assert_eq!(c, Vec3::new(5, -9, 13));
}
