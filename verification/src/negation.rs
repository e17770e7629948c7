use crate::vector::Vec3;
use std::ops::Neg;
use vstd::prelude::*;
use vstd::std_specs::ops::NegSpec;

verus! {

/// Whether `-a` may be computed: `T`'s `-` may be called on each component.
pub open spec fn negation_defined<T: Neg<Output = T>>(a: Vec3<T>) -> bool {
    &&& call_requires(T::neg, (a.x,))
    &&& call_requires(T::neg, (a.y,))
    &&& call_requires(T::neg, (a.z,))
}

/// Whether `r` can be what `-a` returns: each component of `r` is something
/// that `T`'s `-` returns for the matching component of `a`, and for that
/// alone.
pub open spec fn is_negation<T: Neg<Output = T>>(a: Vec3<T>, r: Vec3<T>) -> bool {
    &&& call_ensures(T::neg, (a.x,), r.x)
    &&& call_ensures(T::neg, (a.y,), r.y)
    &&& call_ensures(T::neg, (a.z,), r.z)
}

/// The component-wise negation of `a` for an exact `T`: each component is the
/// negation that `T` specifies for the matching component.
pub open spec fn negation<T: Neg<Output = T>>(a: Vec3<T>) -> Vec3<T> {
    Vec3 { x: a.x.neg_spec(), y: a.y.neg_spec(), z: a.z.neg_spec() }
}

/// `-&a`, which asks for `negation_defined(a)`. This is where a vector is
/// negated: `-a` ends here.
impl<'a, T: Copy + Neg<Output = T>> Neg for &'a Vec3<T> {
    type Output = Vec3<T>;

    fn neg(self) -> (r: Vec3<T>)
        ensures
            is_negation(*self, r),
            T::obeys_neg_spec() ==> r == negation(*self),
    {
        Vec3 { x: self.x.neg(), y: self.y.neg(), z: self.z.neg() }
    }
}

impl<'a, T: Copy + Neg<Output = T>> vstd::std_specs::ops::NegSpecImpl for &'a Vec3<T> {
    open spec fn obeys_neg_spec() -> bool {
        T::obeys_neg_spec()
    }

    open spec fn neg_req(self) -> bool {
        negation_defined(*self)
    }

    open spec fn neg_spec(self) -> Vec3<T> {
        negation(*self)
    }
}

/// `-a`, which asks for `negation_defined(a)`.
impl<T: Copy + Neg<Output = T>> Neg for Vec3<T> {
    type Output = Vec3<T>;

    fn neg(self) -> (r: Vec3<T>)
        ensures
            is_negation(self, r),
            T::obeys_neg_spec() ==> r == negation(self),
    {
        (&self).neg()
    }
}

impl<T: Copy + Neg<Output = T>> vstd::std_specs::ops::NegSpecImpl for Vec3<T> {
    open spec fn obeys_neg_spec() -> bool {
        T::obeys_neg_spec()
    }

    open spec fn neg_req(self) -> bool {
        negation_defined(self)
    }

    open spec fn neg_spec(self) -> Vec3<T> {
        negation(self)
    }
}

} // verus!
