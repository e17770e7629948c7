use crate::vector::Vec3;
use std::ops::Add;
use std::ops::AddAssign;
use vstd::prelude::*;
use vstd::std_specs::ops::AddSpec;

verus! {

/// Whether `a + b` may be computed: `T`'s `+` may be called on each of the
/// three pairs of matching components.
pub open spec fn sum_defined<T: Add<Output = T>>(a: Vec3<T>, b: Vec3<T>) -> bool {
    &&& call_requires(T::add, (a.x, b.x))
    &&& call_requires(T::add, (a.y, b.y))
    &&& call_requires(T::add, (a.z, b.z))
}

/// Whether `r` can be what `a + b` returns: each component of `r` is
/// something that `T`'s `+` returns for the matching components of `a` and
/// `b`, and for those alone.
pub open spec fn is_sum<T: Add<Output = T>>(a: Vec3<T>, b: Vec3<T>, r: Vec3<T>) -> bool {
    &&& call_ensures(T::add, (a.x, b.x), r.x)
    &&& call_ensures(T::add, (a.y, b.y), r.y)
    &&& call_ensures(T::add, (a.z, b.z), r.z)
}

/// The component-wise sum of `a` and `b` for an exact `T`: each component
/// is the sum that `T` specifies for the matching components.
pub open spec fn sum<T: Add<Output = T>>(a: Vec3<T>, b: Vec3<T>) -> Vec3<T> {
    Vec3 { x: a.x.add_spec(b.x), y: a.y.add_spec(b.y), z: a.z.add_spec(b.z) }
}

/// `&a + &b`, which asks for `sum_defined(a, b)`. This is where two vectors
/// are added: the other three operand forms end here.
impl<'a, 'b, T: Copy + Add<Output = T>> Add<&'a Vec3<T>> for &'b Vec3<T> {
    type Output = Vec3<T>;

    fn add(self, other: &'a Vec3<T>) -> (r: Vec3<T>)
        ensures
            is_sum(*self, *other, r),
            T::obeys_add_spec() ==> r == sum(*self, *other),
    {
        Vec3 { x: self.x + other.x, y: self.y + other.y, z: self.z + other.z }
    }
}

impl<'a, 'b, T: Copy + Add<Output = T>> vstd::std_specs::ops::AddSpecImpl<&'a Vec3<T>>
    for &'b Vec3<T> {
    open spec fn obeys_add_spec() -> bool {
        T::obeys_add_spec()
    }

    open spec fn add_req(self, other: &'a Vec3<T>) -> bool {
        sum_defined(*self, *other)
    }

    open spec fn add_spec(self, other: &'a Vec3<T>) -> Vec3<T> {
        sum(*self, *other)
    }
}

/// `a + b`, which asks for `sum_defined(a, b)`.
impl<T: Copy + Add<Output = T>> Add<Vec3<T>> for Vec3<T> {
    type Output = Vec3<T>;

    fn add(self, other: Vec3<T>) -> (r: Vec3<T>)
        ensures
            is_sum(self, other, r),
            T::obeys_add_spec() ==> r == sum(self, other),
    {
        (&self).add(&other)
    }
}

impl<T: Copy + Add<Output = T>> vstd::std_specs::ops::AddSpecImpl<Vec3<T>> for Vec3<T> {
    open spec fn obeys_add_spec() -> bool {
        T::obeys_add_spec()
    }

    open spec fn add_req(self, other: Vec3<T>) -> bool {
        sum_defined(self, other)
    }

    open spec fn add_spec(self, other: Vec3<T>) -> Vec3<T> {
        sum(self, other)
    }
}

/// `a + &b`, which asks for `sum_defined(a, b)`.
impl<'a, T: Copy + Add<Output = T>> Add<&'a Vec3<T>> for Vec3<T> {
    type Output = Vec3<T>;

    fn add(self, other: &'a Vec3<T>) -> (r: Vec3<T>)
        ensures
            is_sum(self, *other, r),
            T::obeys_add_spec() ==> r == sum(self, *other),
    {
        (&self).add(other)
    }
}

impl<'a, T: Copy + Add<Output = T>> vstd::std_specs::ops::AddSpecImpl<&'a Vec3<T>> for Vec3<T> {
    open spec fn obeys_add_spec() -> bool {
        T::obeys_add_spec()
    }

    open spec fn add_req(self, other: &'a Vec3<T>) -> bool {
        sum_defined(self, *other)
    }

    open spec fn add_spec(self, other: &'a Vec3<T>) -> Vec3<T> {
        sum(self, *other)
    }
}

/// `&a + b`, which asks for `sum_defined(a, b)`.
impl<'a, T: Copy + Add<Output = T>> Add<Vec3<T>> for &'a Vec3<T> {
    type Output = Vec3<T>;

    fn add(self, other: Vec3<T>) -> (r: Vec3<T>)
        ensures
            is_sum(*self, other, r),
            T::obeys_add_spec() ==> r == sum(*self, other),
    {
        self.add(&other)
    }
}

impl<'a, T: Copy + Add<Output = T>> vstd::std_specs::ops::AddSpecImpl<Vec3<T>> for &'a Vec3<T> {
    open spec fn obeys_add_spec() -> bool {
        T::obeys_add_spec()
    }

    open spec fn add_req(self, other: Vec3<T>) -> bool {
        sum_defined(*self, other)
    }

    open spec fn add_spec(self, other: Vec3<T>) -> Vec3<T> {
        sum(*self, other)
    }
}

/// `&a + s` with a scalar `s`, which stands for the vector that holds it three
/// times; it asks for `sum_defined(a, Vec3::splat(s))`. This is where a vector
/// and a scalar are added: `a + s` ends here.
impl<'a, T: Copy + Add<Output = T>> Add<T> for &'a Vec3<T> {
    type Output = Vec3<T>;

    fn add(self, other: T) -> (r: Vec3<T>)
        ensures
            is_sum(*self, Vec3::splat(other), r),
            T::obeys_add_spec() ==> r == sum(*self, Vec3::splat(other)),
    {
        Vec3 { x: self.x + other, y: self.y + other, z: self.z + other }
    }
}

impl<'a, T: Copy + Add<Output = T>> vstd::std_specs::ops::AddSpecImpl<T> for &'a Vec3<T> {
    open spec fn obeys_add_spec() -> bool {
        T::obeys_add_spec()
    }

    open spec fn add_req(self, other: T) -> bool {
        sum_defined(*self, Vec3::splat(other))
    }

    open spec fn add_spec(self, other: T) -> Vec3<T> {
        sum(*self, Vec3::splat(other))
    }
}

/// `a + s` with a scalar `s`, which asks for
/// `sum_defined(a, Vec3::splat(s))`.
impl<T: Copy + Add<Output = T>> Add<T> for Vec3<T> {
    type Output = Vec3<T>;

    fn add(self, other: T) -> (r: Vec3<T>)
        ensures
            is_sum(self, Vec3::splat(other), r),
            T::obeys_add_spec() ==> r == sum(self, Vec3::splat(other)),
    {
        (&self).add(other)
    }
}

impl<T: Copy + Add<Output = T>> vstd::std_specs::ops::AddSpecImpl<T> for Vec3<T> {
    open spec fn obeys_add_spec() -> bool {
        T::obeys_add_spec()
    }

    open spec fn add_req(self, other: T) -> bool {
        sum_defined(self, Vec3::splat(other))
    }

    open spec fn add_spec(self, other: T) -> Vec3<T> {
        sum(self, Vec3::splat(other))
    }
}

/// `a += &b`: `a` becomes what `a + &b` returns.
impl<'a, T: Copy + Add<Output = T>> AddAssign<&'a Vec3<T>> for Vec3<T> {
    fn add_assign(&mut self, other: &'a Vec3<T>)
        requires
            sum_defined(*old(self), *other),
        ensures
            is_sum(*old(self), *other, *final(self)),
            T::obeys_add_spec() ==> *final(self) == sum(*old(self), *other),
    {
        *self = (*self).add(other);
    }
}

/// `a += b`: `a` becomes what `a + &b` returns.
impl<T: Copy + Add<Output = T>> AddAssign<Vec3<T>> for Vec3<T> {
    fn add_assign(&mut self, other: Vec3<T>)
        requires
            sum_defined(*old(self), other),
        ensures
            is_sum(*old(self), other, *final(self)),
            T::obeys_add_spec() ==> *final(self) == sum(*old(self), other),
    {
        *self = (*self).add(&other);
    }
}

} // verus!
