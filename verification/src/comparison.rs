use crate::vector::Vec3;
use std::cmp::Ordering;
use vstd::prelude::*;
use vstd::std_specs::cmp::PartialEqSpec;
use vstd::std_specs::cmp::PartialOrdSpec;

verus! {

/// Whether `r` can be the answer to "is `a` equal to `b`?": it is yes where
/// `T` finds all three pairs of matching components equal, and no where `T`
/// finds the first pair unequal, or the first equal and the second unequal,
/// or those two equal and the third unequal.
pub open spec fn is_equality<T: PartialEq>(a: Vec3<T>, b: Vec3<T>, r: bool) -> bool {
    ||| {
        &&& r
        &&& call_ensures(T::eq, (&a.x, &b.x), true)
        &&& call_ensures(T::eq, (&a.y, &b.y), true)
        &&& call_ensures(T::eq, (&a.z, &b.z), true)
    }
    ||| {
        &&& !r
        &&& call_ensures(T::eq, (&a.x, &b.x), false)
    }
    ||| {
        &&& !r
        &&& call_ensures(T::eq, (&a.x, &b.x), true)
        &&& call_ensures(T::eq, (&a.y, &b.y), false)
    }
    ||| {
        &&& !r
        &&& call_ensures(T::eq, (&a.x, &b.x), true)
        &&& call_ensures(T::eq, (&a.y, &b.y), true)
        &&& call_ensures(T::eq, (&a.z, &b.z), false)
    }
}

/// Whether `a` equals `b` for an exact `T`: all three pairs of matching
/// components are equal.
pub open spec fn equality<T: PartialEq>(a: Vec3<T>, b: Vec3<T>) -> bool {
    a.x.eq_spec(&b.x) && a.y.eq_spec(&b.y) && a.z.eq_spec(&b.z)
}

/// Two vectors are equal when `T` finds each pair of matching components
/// equal.
impl<T: PartialEq> PartialEq for Vec3<T> {
    fn eq(&self, other: &Vec3<T>) -> (r: bool)
        ensures
            is_equality(*self, *other, r),
            T::obeys_eq_spec() ==> r == equality(*self, *other),
    {
        self.x == other.x && self.y == other.y && self.z == other.z
    }
}

impl<T: PartialEq> vstd::std_specs::cmp::PartialEqSpecImpl for Vec3<T> {
    open spec fn obeys_eq_spec() -> bool {
        T::obeys_eq_spec()
    }

    open spec fn eq_spec(&self, other: &Vec3<T>) -> bool {
        equality(*self, *other)
    }
}

/// Whether `r` can be the answer to "how does `a` stand to `b`?" in the
/// lexicographic order: it is what `T` answers for the first pair of matching
/// components for which its answer is not "equal", and what it answers for the
/// third pair where there is none among the first two.
pub open spec fn is_lexicographic<T: PartialOrd>(
    a: Vec3<T>,
    b: Vec3<T>,
    r: Option<Ordering>,
) -> bool {
    ||| {
        &&& r != Some(Ordering::Equal)
        &&& call_ensures(T::partial_cmp, (&a.x, &b.x), r)
    }
    ||| {
        &&& r != Some(Ordering::Equal)
        &&& call_ensures(T::partial_cmp, (&a.x, &b.x), Some(Ordering::Equal))
        &&& call_ensures(T::partial_cmp, (&a.y, &b.y), r)
    }
    ||| {
        &&& call_ensures(T::partial_cmp, (&a.x, &b.x), Some(Ordering::Equal))
        &&& call_ensures(T::partial_cmp, (&a.y, &b.y), Some(Ordering::Equal))
        &&& call_ensures(T::partial_cmp, (&a.z, &b.z), r)
    }
}

/// How `a` stands to `b` in the lexicographic order for an exact `T`: the
/// first pair of matching components that are not equal decides, and where `T`
/// cannot order that pair the vectors are not ordered either.
pub open spec fn lexicographic<T: PartialOrd>(a: Vec3<T>, b: Vec3<T>) -> Option<Ordering> {
    if a.x.partial_cmp_spec(&b.x) != Some(Ordering::Equal) {
        a.x.partial_cmp_spec(&b.x)
    } else if a.y.partial_cmp_spec(&b.y) != Some(Ordering::Equal) {
        a.y.partial_cmp_spec(&b.y)
    } else {
        a.z.partial_cmp_spec(&b.z)
    }
}

/// Vectors are ordered lexicographically, `x` first.
impl<T: PartialOrd> PartialOrd for Vec3<T> {
    fn partial_cmp(&self, other: &Vec3<T>) -> (r: Option<Ordering>)
        ensures
            is_lexicographic(*self, *other, r),
            T::obeys_partial_cmp_spec() ==> r == lexicographic(*self, *other),
    {
        match self.x.partial_cmp(&other.x) {
            Some(Ordering::Equal) => match self.y.partial_cmp(&other.y) {
                Some(Ordering::Equal) => self.z.partial_cmp(&other.z),
                unequal => unequal,
            },
            unequal => unequal,
        }
    }
}

impl<T: PartialOrd> vstd::std_specs::cmp::PartialOrdSpecImpl for Vec3<T> {
    open spec fn obeys_partial_cmp_spec() -> bool {
        T::obeys_partial_cmp_spec()
    }

    open spec fn partial_cmp_spec(&self, other: &Vec3<T>) -> Option<Ordering> {
        lexicographic(*self, *other)
    }
}

} // verus!
