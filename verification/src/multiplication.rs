use crate::vector::Vec3;
use std::ops::Mul;
use std::ops::MulAssign;
use vstd::prelude::*;
use vstd::std_specs::ops::MulSpec;

verus! {

/// Whether `a * b` may be computed: `T`'s `*` may be called on each of the
/// three pairs of matching components.
pub open spec fn product_defined<T: Mul<Output = T>>(a: Vec3<T>, b: Vec3<T>) -> bool {
    &&& call_requires(T::mul, (a.x, b.x))
    &&& call_requires(T::mul, (a.y, b.y))
    &&& call_requires(T::mul, (a.z, b.z))
}

/// Whether `r` can be what `a * b` returns: each component of `r` is
/// something that `T`'s `*` returns for the matching components of `a` and
/// `b`, and for those alone.
pub open spec fn is_product<T: Mul<Output = T>>(a: Vec3<T>, b: Vec3<T>, r: Vec3<T>) -> bool {
    &&& call_ensures(T::mul, (a.x, b.x), r.x)
    &&& call_ensures(T::mul, (a.y, b.y), r.y)
    &&& call_ensures(T::mul, (a.z, b.z), r.z)
}

/// The component-wise product of `a` and `b` for an exact `T`: each component
/// is the product that `T` specifies for the matching components.
pub open spec fn product<T: Mul<Output = T>>(a: Vec3<T>, b: Vec3<T>) -> Vec3<T> {
    Vec3 { x: a.x.mul_spec(b.x), y: a.y.mul_spec(b.y), z: a.z.mul_spec(b.z) }
}

/// `&a * &b`, which asks for `product_defined(a, b)`. This is where two vectors
/// are multiplied: the other three operand forms end here.
impl<'a, 'b, T: Copy + Mul<Output = T>> Mul<&'a Vec3<T>> for &'b Vec3<T> {
    type Output = Vec3<T>;

    fn mul(self, other: &'a Vec3<T>) -> (r: Vec3<T>)
        ensures
            is_product(*self, *other, r),
            T::obeys_mul_spec() ==> r == product(*self, *other),
    {
        Vec3 { x: self.x * other.x, y: self.y * other.y, z: self.z * other.z }
    }
}

impl<'a, 'b, T: Copy + Mul<Output = T>> vstd::std_specs::ops::MulSpecImpl<&'a Vec3<T>>
    for &'b Vec3<T> {
    open spec fn obeys_mul_spec() -> bool {
        T::obeys_mul_spec()
    }

    open spec fn mul_req(self, other: &'a Vec3<T>) -> bool {
        product_defined(*self, *other)
    }

    open spec fn mul_spec(self, other: &'a Vec3<T>) -> Vec3<T> {
        product(*self, *other)
    }
}

/// `a * b`, which asks for `product_defined(a, b)`.
impl<T: Copy + Mul<Output = T>> Mul<Vec3<T>> for Vec3<T> {
    type Output = Vec3<T>;

    fn mul(self, other: Vec3<T>) -> (r: Vec3<T>)
        ensures
            is_product(self, other, r),
            T::obeys_mul_spec() ==> r == product(self, other),
    {
        (&self).mul(&other)
    }
}

impl<T: Copy + Mul<Output = T>> vstd::std_specs::ops::MulSpecImpl<Vec3<T>> for Vec3<T> {
    open spec fn obeys_mul_spec() -> bool {
        T::obeys_mul_spec()
    }

    open spec fn mul_req(self, other: Vec3<T>) -> bool {
        product_defined(self, other)
    }

    open spec fn mul_spec(self, other: Vec3<T>) -> Vec3<T> {
        product(self, other)
    }
}

/// `a * &b`, which asks for `product_defined(a, b)`.
impl<'a, T: Copy + Mul<Output = T>> Mul<&'a Vec3<T>> for Vec3<T> {
    type Output = Vec3<T>;

    fn mul(self, other: &'a Vec3<T>) -> (r: Vec3<T>)
        ensures
            is_product(self, *other, r),
            T::obeys_mul_spec() ==> r == product(self, *other),
    {
        (&self).mul(other)
    }
}

impl<'a, T: Copy + Mul<Output = T>> vstd::std_specs::ops::MulSpecImpl<&'a Vec3<T>> for Vec3<T> {
    open spec fn obeys_mul_spec() -> bool {
        T::obeys_mul_spec()
    }

    open spec fn mul_req(self, other: &'a Vec3<T>) -> bool {
        product_defined(self, *other)
    }

    open spec fn mul_spec(self, other: &'a Vec3<T>) -> Vec3<T> {
        product(self, *other)
    }
}

/// `&a * b`, which asks for `product_defined(a, b)`.
impl<'a, T: Copy + Mul<Output = T>> Mul<Vec3<T>> for &'a Vec3<T> {
    type Output = Vec3<T>;

    fn mul(self, other: Vec3<T>) -> (r: Vec3<T>)
        ensures
            is_product(*self, other, r),
            T::obeys_mul_spec() ==> r == product(*self, other),
    {
        self.mul(&other)
    }
}

impl<'a, T: Copy + Mul<Output = T>> vstd::std_specs::ops::MulSpecImpl<Vec3<T>> for &'a Vec3<T> {
    open spec fn obeys_mul_spec() -> bool {
        T::obeys_mul_spec()
    }

    open spec fn mul_req(self, other: Vec3<T>) -> bool {
        product_defined(*self, other)
    }

    open spec fn mul_spec(self, other: Vec3<T>) -> Vec3<T> {
        product(*self, other)
    }
}

/// `&a * s` with a scalar `s`, which stands for the vector that holds it three
/// times; it asks for `product_defined(a, Vec3::splat(s))`. This is where a vector
/// and a scalar are multiplied: `a * s` ends here.
impl<'a, T: Copy + Mul<Output = T>> Mul<T> for &'a Vec3<T> {
    type Output = Vec3<T>;

    fn mul(self, other: T) -> (r: Vec3<T>)
        ensures
            is_product(*self, Vec3::splat(other), r),
            T::obeys_mul_spec() ==> r == product(*self, Vec3::splat(other)),
    {
        Vec3 { x: self.x * other, y: self.y * other, z: self.z * other }
    }
}

impl<'a, T: Copy + Mul<Output = T>> vstd::std_specs::ops::MulSpecImpl<T> for &'a Vec3<T> {
    open spec fn obeys_mul_spec() -> bool {
        T::obeys_mul_spec()
    }

    open spec fn mul_req(self, other: T) -> bool {
        product_defined(*self, Vec3::splat(other))
    }

    open spec fn mul_spec(self, other: T) -> Vec3<T> {
        product(*self, Vec3::splat(other))
    }
}

/// `a * s` with a scalar `s`, which asks for
/// `product_defined(a, Vec3::splat(s))`.
impl<T: Copy + Mul<Output = T>> Mul<T> for Vec3<T> {
    type Output = Vec3<T>;

    fn mul(self, other: T) -> (r: Vec3<T>)
        ensures
            is_product(self, Vec3::splat(other), r),
            T::obeys_mul_spec() ==> r == product(self, Vec3::splat(other)),
    {
        (&self).mul(other)
    }
}

impl<T: Copy + Mul<Output = T>> vstd::std_specs::ops::MulSpecImpl<T> for Vec3<T> {
    open spec fn obeys_mul_spec() -> bool {
        T::obeys_mul_spec()
    }

    open spec fn mul_req(self, other: T) -> bool {
        product_defined(self, Vec3::splat(other))
    }

    open spec fn mul_spec(self, other: T) -> Vec3<T> {
        product(self, Vec3::splat(other))
    }
}

/// `a *= &b`: `a` becomes what `a * &b` returns.
impl<'a, T: Copy + Mul<Output = T>> MulAssign<&'a Vec3<T>> for Vec3<T> {
    fn mul_assign(&mut self, other: &'a Vec3<T>)
        requires
            product_defined(*old(self), *other),
        ensures
            is_product(*old(self), *other, *final(self)),
            T::obeys_mul_spec() ==> *final(self) == product(*old(self), *other),
    {
        *self = (*self).mul(other);
    }
}

/// `a *= b`: `a` becomes what `a * &b` returns.
impl<T: Copy + Mul<Output = T>> MulAssign<Vec3<T>> for Vec3<T> {
    fn mul_assign(&mut self, other: Vec3<T>)
        requires
            product_defined(*old(self), other),
        ensures
            is_product(*old(self), other, *final(self)),
            T::obeys_mul_spec() ==> *final(self) == product(*old(self), other),
    {
        *self = (*self).mul(&other);
    }
}

} // verus!
