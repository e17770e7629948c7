use crate::vector::Vec3;
use std::ops::Div;
use std::ops::DivAssign;
use vstd::prelude::*;
use vstd::std_specs::ops::DivSpec;

verus! {

/// Whether `a / b` may be computed: `T`'s `/` may be called on each of the
/// three pairs of matching components.
pub open spec fn quotient_defined<T: Div<Output = T>>(a: Vec3<T>, b: Vec3<T>) -> bool {
    &&& call_requires(T::div, (a.x, b.x))
    &&& call_requires(T::div, (a.y, b.y))
    &&& call_requires(T::div, (a.z, b.z))
}

/// Whether `r` can be what `a / b` returns: each component of `r` is
/// something that `T`'s `/` returns for the matching components of `a` and
/// `b`, and for those alone.
pub open spec fn is_quotient<T: Div<Output = T>>(a: Vec3<T>, b: Vec3<T>, r: Vec3<T>) -> bool {
    &&& call_ensures(T::div, (a.x, b.x), r.x)
    &&& call_ensures(T::div, (a.y, b.y), r.y)
    &&& call_ensures(T::div, (a.z, b.z), r.z)
}

/// The component-wise quotient of `a` and `b` for an exact `T`: each component
/// is the quotient that `T` specifies for the matching components.
pub open spec fn quotient<T: Div<Output = T>>(a: Vec3<T>, b: Vec3<T>) -> Vec3<T> {
    Vec3 { x: a.x.div_spec(b.x), y: a.y.div_spec(b.y), z: a.z.div_spec(b.z) }
}

/// `&a / &b`, which asks for `quotient_defined(a, b)`. This is where two vectors
/// are divided: the other three operand forms end here.
impl<'a, 'b, T: Copy + Div<Output = T>> Div<&'a Vec3<T>> for &'b Vec3<T> {
    type Output = Vec3<T>;

    fn div(self, other: &'a Vec3<T>) -> (r: Vec3<T>)
        ensures
            is_quotient(*self, *other, r),
            T::obeys_div_spec() ==> r == quotient(*self, *other),
    {
        Vec3 { x: self.x / other.x, y: self.y / other.y, z: self.z / other.z }
    }
}

impl<'a, 'b, T: Copy + Div<Output = T>> vstd::std_specs::ops::DivSpecImpl<&'a Vec3<T>>
    for &'b Vec3<T> {
    open spec fn obeys_div_spec() -> bool {
        T::obeys_div_spec()
    }

    open spec fn div_req(self, other: &'a Vec3<T>) -> bool {
        quotient_defined(*self, *other)
    }

    open spec fn div_spec(self, other: &'a Vec3<T>) -> Vec3<T> {
        quotient(*self, *other)
    }
}

/// `a / b`, which asks for `quotient_defined(a, b)`.
impl<T: Copy + Div<Output = T>> Div<Vec3<T>> for Vec3<T> {
    type Output = Vec3<T>;

    fn div(self, other: Vec3<T>) -> (r: Vec3<T>)
        ensures
            is_quotient(self, other, r),
            T::obeys_div_spec() ==> r == quotient(self, other),
    {
        (&self).div(&other)
    }
}

impl<T: Copy + Div<Output = T>> vstd::std_specs::ops::DivSpecImpl<Vec3<T>> for Vec3<T> {
    open spec fn obeys_div_spec() -> bool {
        T::obeys_div_spec()
    }

    open spec fn div_req(self, other: Vec3<T>) -> bool {
        quotient_defined(self, other)
    }

    open spec fn div_spec(self, other: Vec3<T>) -> Vec3<T> {
        quotient(self, other)
    }
}

/// `a / &b`, which asks for `quotient_defined(a, b)`.
impl<'a, T: Copy + Div<Output = T>> Div<&'a Vec3<T>> for Vec3<T> {
    type Output = Vec3<T>;

    fn div(self, other: &'a Vec3<T>) -> (r: Vec3<T>)
        ensures
            is_quotient(self, *other, r),
            T::obeys_div_spec() ==> r == quotient(self, *other),
    {
        (&self).div(other)
    }
}

impl<'a, T: Copy + Div<Output = T>> vstd::std_specs::ops::DivSpecImpl<&'a Vec3<T>> for Vec3<T> {
    open spec fn obeys_div_spec() -> bool {
        T::obeys_div_spec()
    }

    open spec fn div_req(self, other: &'a Vec3<T>) -> bool {
        quotient_defined(self, *other)
    }

    open spec fn div_spec(self, other: &'a Vec3<T>) -> Vec3<T> {
        quotient(self, *other)
    }
}

/// `&a / b`, which asks for `quotient_defined(a, b)`.
impl<'a, T: Copy + Div<Output = T>> Div<Vec3<T>> for &'a Vec3<T> {
    type Output = Vec3<T>;

    fn div(self, other: Vec3<T>) -> (r: Vec3<T>)
        ensures
            is_quotient(*self, other, r),
            T::obeys_div_spec() ==> r == quotient(*self, other),
    {
        self.div(&other)
    }
}

impl<'a, T: Copy + Div<Output = T>> vstd::std_specs::ops::DivSpecImpl<Vec3<T>> for &'a Vec3<T> {
    open spec fn obeys_div_spec() -> bool {
        T::obeys_div_spec()
    }

    open spec fn div_req(self, other: Vec3<T>) -> bool {
        quotient_defined(*self, other)
    }

    open spec fn div_spec(self, other: Vec3<T>) -> Vec3<T> {
        quotient(*self, other)
    }
}

/// `&a / s` with a scalar `s`, which stands for the vector that holds it three
/// times; it asks for `quotient_defined(a, Vec3::splat(s))`. This is where a vector
/// and a scalar are divided: `a / s` ends here.
impl<'a, T: Copy + Div<Output = T>> Div<T> for &'a Vec3<T> {
    type Output = Vec3<T>;

    fn div(self, other: T) -> (r: Vec3<T>)
        ensures
            is_quotient(*self, Vec3::splat(other), r),
            T::obeys_div_spec() ==> r == quotient(*self, Vec3::splat(other)),
    {
        Vec3 { x: self.x / other, y: self.y / other, z: self.z / other }
    }
}

impl<'a, T: Copy + Div<Output = T>> vstd::std_specs::ops::DivSpecImpl<T> for &'a Vec3<T> {
    open spec fn obeys_div_spec() -> bool {
        T::obeys_div_spec()
    }

    open spec fn div_req(self, other: T) -> bool {
        quotient_defined(*self, Vec3::splat(other))
    }

    open spec fn div_spec(self, other: T) -> Vec3<T> {
        quotient(*self, Vec3::splat(other))
    }
}

/// `a / s` with a scalar `s`, which asks for
/// `quotient_defined(a, Vec3::splat(s))`.
impl<T: Copy + Div<Output = T>> Div<T> for Vec3<T> {
    type Output = Vec3<T>;

    fn div(self, other: T) -> (r: Vec3<T>)
        ensures
            is_quotient(self, Vec3::splat(other), r),
            T::obeys_div_spec() ==> r == quotient(self, Vec3::splat(other)),
    {
        (&self).div(other)
    }
}

impl<T: Copy + Div<Output = T>> vstd::std_specs::ops::DivSpecImpl<T> for Vec3<T> {
    open spec fn obeys_div_spec() -> bool {
        T::obeys_div_spec()
    }

    open spec fn div_req(self, other: T) -> bool {
        quotient_defined(self, Vec3::splat(other))
    }

    open spec fn div_spec(self, other: T) -> Vec3<T> {
        quotient(self, Vec3::splat(other))
    }
}

/// `a /= &b`: `a` becomes what `a / &b` returns.
impl<'a, T: Copy + Div<Output = T>> DivAssign<&'a Vec3<T>> for Vec3<T> {
    fn div_assign(&mut self, other: &'a Vec3<T>)
        requires
            quotient_defined(*old(self), *other),
        ensures
            is_quotient(*old(self), *other, *final(self)),
            T::obeys_div_spec() ==> *final(self) == quotient(*old(self), *other),
    {
        *self = (*self).div(other);
    }
}

/// `a /= b`: `a` becomes what `a / &b` returns.
impl<T: Copy + Div<Output = T>> DivAssign<Vec3<T>> for Vec3<T> {
    fn div_assign(&mut self, other: Vec3<T>)
        requires
            quotient_defined(*old(self), other),
        ensures
            is_quotient(*old(self), other, *final(self)),
            T::obeys_div_spec() ==> *final(self) == quotient(*old(self), other),
    {
        *self = (*self).div(&other);
    }
}

} // verus!
