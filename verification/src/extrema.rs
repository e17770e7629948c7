use crate::vector::Vec3;
use vstd::prelude::*;
use vstd::std_specs::cmp::PartialOrdIs;
use vstd::std_specs::cmp::PartialOrdSpec;

verus! {

/// Whether `r` can be taken for the lesser of `p` and `q`: it is `q` where `T`
/// finds `q < p`, and else `q` again where `T` does not find `p <= p`, and
/// else `p`.
///
/// A scalar that is not at most itself, such as an IEEE not-a-number, is
/// unordered, and loses to the other scalar. Of two scalars neither of which
/// is less than the other, the first is taken.
pub open spec fn is_lesser<T: PartialOrd>(p: T, q: T, r: T) -> bool {
    ||| call_ensures(T::lt, (&q, &p), true) && r == q
    ||| call_ensures(T::lt, (&q, &p), false) && call_ensures(T::le, (&p, &p), false) && r == q
    ||| call_ensures(T::lt, (&q, &p), false) && call_ensures(T::le, (&p, &p), true) && r == p
}

/// Whether `r` can be taken for the greater of `p` and `q`: it is `q` where
/// `T` finds `q > p`, and else `q` again where `T` does not find `p <= p`, and
/// else `p`.
pub open spec fn is_greater<T: PartialOrd>(p: T, q: T, r: T) -> bool {
    ||| call_ensures(T::gt, (&q, &p), true) && r == q
    ||| call_ensures(T::gt, (&q, &p), false) && call_ensures(T::le, (&p, &p), false) && r == q
    ||| call_ensures(T::gt, (&q, &p), false) && call_ensures(T::le, (&p, &p), true) && r == p
}

/// The lesser of `p` and `q` for an exact `T`.
pub open spec fn lesser<T: PartialOrd>(p: T, q: T) -> T {
    if q.is_lt(&p) || !p.is_le(&p) {
        q
    } else {
        p
    }
}

/// The greater of `p` and `q` for an exact `T`.
pub open spec fn greater<T: PartialOrd>(p: T, q: T) -> T {
    if q.is_gt(&p) || !p.is_le(&p) {
        q
    } else {
        p
    }
}

/// Whether `r` can be what the component-wise minimum of `a` and `b` returns.
pub open spec fn is_lower<T: PartialOrd>(a: Vec3<T>, b: Vec3<T>, r: Vec3<T>) -> bool {
    &&& is_lesser(a.x, b.x, r.x)
    &&& is_lesser(a.y, b.y, r.y)
    &&& is_lesser(a.z, b.z, r.z)
}

/// Whether `r` can be what the component-wise maximum of `a` and `b` returns.
pub open spec fn is_upper<T: PartialOrd>(a: Vec3<T>, b: Vec3<T>, r: Vec3<T>) -> bool {
    &&& is_greater(a.x, b.x, r.x)
    &&& is_greater(a.y, b.y, r.y)
    &&& is_greater(a.z, b.z, r.z)
}

/// The component-wise minimum of `a` and `b` for an exact `T`.
pub open spec fn lower<T: PartialOrd>(a: Vec3<T>, b: Vec3<T>) -> Vec3<T> {
    Vec3 { x: lesser(a.x, b.x), y: lesser(a.y, b.y), z: lesser(a.z, b.z) }
}

/// The component-wise maximum of `a` and `b` for an exact `T`.
pub open spec fn upper<T: PartialOrd>(a: Vec3<T>, b: Vec3<T>) -> Vec3<T> {
    Vec3 { x: greater(a.x, b.x), y: greater(a.y, b.y), z: greater(a.z, b.z) }
}

fn scalar_min<T: Copy + PartialOrd>(p: T, q: T) -> (r: T)
    ensures
        is_lesser(p, q, r),
        T::obeys_partial_cmp_spec() ==> r == lesser(p, q),
{
    if q < p || !(p <= p) {
        q
    } else {
        p
    }
}

fn scalar_max<T: Copy + PartialOrd>(p: T, q: T) -> (r: T)
    ensures
        is_greater(p, q, r),
        T::obeys_partial_cmp_spec() ==> r == greater(p, q),
{
    if q > p || !(p <= p) {
        q
    } else {
        p
    }
}

impl<T: Copy + PartialOrd> Vec3<T> {
    /// The component-wise minimum of this vector and `other`. A component
    /// that is unordered loses to the other vector's; of two components
    /// neither of which is less than the other, this vector's is taken.
    pub fn min(&self, other: &Vec3<T>) -> (r: Vec3<T>)
        ensures
            is_lower(*self, *other, r),
            T::obeys_partial_cmp_spec() ==> r == lower(*self, *other),
    {
        Vec3 {
            x: scalar_min(self.x, other.x),
            y: scalar_min(self.y, other.y),
            z: scalar_min(self.z, other.z),
        }
    }

    /// The component-wise maximum of this vector and `other`. A component
    /// that is unordered loses to the other vector's; of two components
    /// neither of which is greater than the other, this vector's is taken.
    pub fn max(&self, other: &Vec3<T>) -> (r: Vec3<T>)
        ensures
            is_upper(*self, *other, r),
            T::obeys_partial_cmp_spec() ==> r == upper(*self, *other),
    {
        Vec3 {
            x: scalar_max(self.x, other.x),
            y: scalar_max(self.y, other.y),
            z: scalar_max(self.z, other.z),
        }
    }
}

} // verus!
