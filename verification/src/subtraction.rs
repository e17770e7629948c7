use crate::vector::Vec3;
use std::ops::Sub;
use std::ops::SubAssign;
use vstd::prelude::*;
use vstd::std_specs::ops::SubSpec;

verus! {

/// Whether `a - b` may be computed: `T`'s `-` may be called on each of the
/// three pairs of matching components.
pub open spec fn difference_defined<T: Sub<Output = T>>(a: Vec3<T>, b: Vec3<T>) -> bool {
    &&& call_requires(T::sub, (a.x, b.x))
    &&& call_requires(T::sub, (a.y, b.y))
    &&& call_requires(T::sub, (a.z, b.z))
}

/// Whether `r` can be what `a - b` returns: each component of `r` is
/// something that `T`'s `-` returns for the matching components of `a` and
/// `b`, and for those alone.
pub open spec fn is_difference<T: Sub<Output = T>>(a: Vec3<T>, b: Vec3<T>, r: Vec3<T>) -> bool {
    &&& call_ensures(T::sub, (a.x, b.x), r.x)
    &&& call_ensures(T::sub, (a.y, b.y), r.y)
    &&& call_ensures(T::sub, (a.z, b.z), r.z)
}

/// The component-wise difference of `a` and `b` for an exact `T`: each component
/// is the difference that `T` specifies for the matching components.
pub open spec fn difference<T: Sub<Output = T>>(a: Vec3<T>, b: Vec3<T>) -> Vec3<T> {
    Vec3 { x: a.x.sub_spec(b.x), y: a.y.sub_spec(b.y), z: a.z.sub_spec(b.z) }
}

/// `&a - &b`, which asks for `difference_defined(a, b)`. This is where two vectors
/// are subtracted: the other three operand forms end here.
impl<'a, 'b, T: Copy + Sub<Output = T>> Sub<&'a Vec3<T>> for &'b Vec3<T> {
    type Output = Vec3<T>;

    fn sub(self, other: &'a Vec3<T>) -> (r: Vec3<T>)
        ensures
            is_difference(*self, *other, r),
            T::obeys_sub_spec() ==> r == difference(*self, *other),
    {
        Vec3 { x: self.x - other.x, y: self.y - other.y, z: self.z - other.z }
    }
}

impl<'a, 'b, T: Copy + Sub<Output = T>> vstd::std_specs::ops::SubSpecImpl<&'a Vec3<T>>
    for &'b Vec3<T> {
    open spec fn obeys_sub_spec() -> bool {
        T::obeys_sub_spec()
    }

    open spec fn sub_req(self, other: &'a Vec3<T>) -> bool {
        difference_defined(*self, *other)
    }

    open spec fn sub_spec(self, other: &'a Vec3<T>) -> Vec3<T> {
        difference(*self, *other)
    }
}

/// `a - b`, which asks for `difference_defined(a, b)`.
impl<T: Copy + Sub<Output = T>> Sub<Vec3<T>> for Vec3<T> {
    type Output = Vec3<T>;

    fn sub(self, other: Vec3<T>) -> (r: Vec3<T>)
        ensures
            is_difference(self, other, r),
            T::obeys_sub_spec() ==> r == difference(self, other),
    {
        (&self).sub(&other)
    }
}

impl<T: Copy + Sub<Output = T>> vstd::std_specs::ops::SubSpecImpl<Vec3<T>> for Vec3<T> {
    open spec fn obeys_sub_spec() -> bool {
        T::obeys_sub_spec()
    }

    open spec fn sub_req(self, other: Vec3<T>) -> bool {
        difference_defined(self, other)
    }

    open spec fn sub_spec(self, other: Vec3<T>) -> Vec3<T> {
        difference(self, other)
    }
}

/// `a - &b`, which asks for `difference_defined(a, b)`.
impl<'a, T: Copy + Sub<Output = T>> Sub<&'a Vec3<T>> for Vec3<T> {
    type Output = Vec3<T>;

    fn sub(self, other: &'a Vec3<T>) -> (r: Vec3<T>)
        ensures
            is_difference(self, *other, r),
            T::obeys_sub_spec() ==> r == difference(self, *other),
    {
        (&self).sub(other)
    }
}

impl<'a, T: Copy + Sub<Output = T>> vstd::std_specs::ops::SubSpecImpl<&'a Vec3<T>> for Vec3<T> {
    open spec fn obeys_sub_spec() -> bool {
        T::obeys_sub_spec()
    }

    open spec fn sub_req(self, other: &'a Vec3<T>) -> bool {
        difference_defined(self, *other)
    }

    open spec fn sub_spec(self, other: &'a Vec3<T>) -> Vec3<T> {
        difference(self, *other)
    }
}

/// `&a - b`, which asks for `difference_defined(a, b)`.
impl<'a, T: Copy + Sub<Output = T>> Sub<Vec3<T>> for &'a Vec3<T> {
    type Output = Vec3<T>;

    fn sub(self, other: Vec3<T>) -> (r: Vec3<T>)
        ensures
            is_difference(*self, other, r),
            T::obeys_sub_spec() ==> r == difference(*self, other),
    {
        self.sub(&other)
    }
}

impl<'a, T: Copy + Sub<Output = T>> vstd::std_specs::ops::SubSpecImpl<Vec3<T>> for &'a Vec3<T> {
    open spec fn obeys_sub_spec() -> bool {
        T::obeys_sub_spec()
    }

    open spec fn sub_req(self, other: Vec3<T>) -> bool {
        difference_defined(*self, other)
    }

    open spec fn sub_spec(self, other: Vec3<T>) -> Vec3<T> {
        difference(*self, other)
    }
}

/// `&a - s` with a scalar `s`, which stands for the vector that holds it three
/// times; it asks for `difference_defined(a, Vec3::splat(s))`. This is where a vector
/// and a scalar are subtracted: `a - s` ends here.
impl<'a, T: Copy + Sub<Output = T>> Sub<T> for &'a Vec3<T> {
    type Output = Vec3<T>;

    fn sub(self, other: T) -> (r: Vec3<T>)
        ensures
            is_difference(*self, Vec3::splat(other), r),
            T::obeys_sub_spec() ==> r == difference(*self, Vec3::splat(other)),
    {
        Vec3 { x: self.x - other, y: self.y - other, z: self.z - other }
    }
}

impl<'a, T: Copy + Sub<Output = T>> vstd::std_specs::ops::SubSpecImpl<T> for &'a Vec3<T> {
    open spec fn obeys_sub_spec() -> bool {
        T::obeys_sub_spec()
    }

    open spec fn sub_req(self, other: T) -> bool {
        difference_defined(*self, Vec3::splat(other))
    }

    open spec fn sub_spec(self, other: T) -> Vec3<T> {
        difference(*self, Vec3::splat(other))
    }
}

/// `a - s` with a scalar `s`, which asks for
/// `difference_defined(a, Vec3::splat(s))`.
impl<T: Copy + Sub<Output = T>> Sub<T> for Vec3<T> {
    type Output = Vec3<T>;

    fn sub(self, other: T) -> (r: Vec3<T>)
        ensures
            is_difference(self, Vec3::splat(other), r),
            T::obeys_sub_spec() ==> r == difference(self, Vec3::splat(other)),
    {
        (&self).sub(other)
    }
}

impl<T: Copy + Sub<Output = T>> vstd::std_specs::ops::SubSpecImpl<T> for Vec3<T> {
    open spec fn obeys_sub_spec() -> bool {
        T::obeys_sub_spec()
    }

    open spec fn sub_req(self, other: T) -> bool {
        difference_defined(self, Vec3::splat(other))
    }

    open spec fn sub_spec(self, other: T) -> Vec3<T> {
        difference(self, Vec3::splat(other))
    }
}

/// `a -= &b`: `a` becomes what `a - &b` returns.
impl<'a, T: Copy + Sub<Output = T>> SubAssign<&'a Vec3<T>> for Vec3<T> {
    fn sub_assign(&mut self, other: &'a Vec3<T>)
        requires
            difference_defined(*old(self), *other),
        ensures
            is_difference(*old(self), *other, *final(self)),
            T::obeys_sub_spec() ==> *final(self) == difference(*old(self), *other),
    {
        *self = (*self).sub(other);
    }
}

/// `a -= b`: `a` becomes what `a - &b` returns.
impl<T: Copy + Sub<Output = T>> SubAssign<Vec3<T>> for Vec3<T> {
    fn sub_assign(&mut self, other: Vec3<T>)
        requires
            difference_defined(*old(self), other),
        ensures
            is_difference(*old(self), other, *final(self)),
            T::obeys_sub_spec() ==> *final(self) == difference(*old(self), other),
    {
        *self = (*self).sub(&other);
    }
}

} // verus!
