use crate::vector::Vec3;
use std::ops::Add;
use std::ops::Mul;
use std::ops::Sub;
use vstd::prelude::*;
use vstd::std_specs::ops::AddSpec;
use vstd::std_specs::ops::MulSpec;
use vstd::std_specs::ops::SubSpec;

verus! {

/// Whether the dot product of `a` and `b` may be computed: `T`'s `*` may be
/// called for the three products, and `T`'s `+` for the sum of whatever the
/// first two of them are, and for the sum of whatever that is and whatever the
/// third product is.
pub open spec fn dot_product_defined<T: Add<Output = T> + Mul<Output = T>>(
    a: Vec3<T>,
    b: Vec3<T>,
) -> bool {
    &&& call_requires(T::mul, (a.x, b.x))
    &&& call_requires(T::mul, (a.y, b.y))
    &&& call_requires(T::mul, (a.z, b.z))
    &&& forall|p: T, q: T|
        #![trigger call_ensures(T::mul, (a.x, b.x), p), call_ensures(T::mul, (a.y, b.y), q)]
        call_ensures(T::mul, (a.x, b.x), p) && call_ensures(T::mul, (a.y, b.y), q)
            ==> call_requires(T::add, (p, q))
    &&& forall|p: T, q: T, s: T, t: T|
        #![trigger call_ensures(T::add, (p, q), s), call_ensures(T::mul, (a.z, b.z), t)]
        call_ensures(T::mul, (a.x, b.x), p) && call_ensures(T::mul, (a.y, b.y), q)
            && call_ensures(T::add, (p, q), s) && call_ensures(T::mul, (a.z, b.z), t)
            ==> call_requires(T::add, (s, t))
}

/// Whether `r` can be what the dot product of `a` and `b` returns: it is
/// something that `T` returns for `a.x * b.x + a.y * b.y + a.z * b.z`, summed
/// from left to right.
pub open spec fn is_dot_product<T: Add<Output = T> + Mul<Output = T>>(
    a: Vec3<T>,
    b: Vec3<T>,
    r: T,
) -> bool {
    exists|p: T, q: T, s: T, t: T|
        #![trigger call_ensures(T::add, (p, q), s), call_ensures(T::add, (s, t), r)]
        call_ensures(T::mul, (a.x, b.x), p) && call_ensures(T::mul, (a.y, b.y), q)
            && call_ensures(T::mul, (a.z, b.z), t) && call_ensures(T::add, (p, q), s)
            && call_ensures(T::add, (s, t), r)
}

/// The dot product of `a` and `b` for an exact `T`:
/// `a.x * b.x + a.y * b.y + a.z * b.z`, summed from left to right.
pub open spec fn dot_product<T: Add<Output = T> + Mul<Output = T>>(a: Vec3<T>, b: Vec3<T>) -> T {
    a.x.mul_spec(b.x).add_spec(a.y.mul_spec(b.y)).add_spec(a.z.mul_spec(b.z))
}

/// Whether `p * q - u * v` may be computed: `T`'s `*` may be called for the
/// two products, and `T`'s `-` for the difference of whatever they are.
pub open spec fn minor_defined<T: Sub<Output = T> + Mul<Output = T>>(
    p: T,
    q: T,
    u: T,
    v: T,
) -> bool {
    &&& call_requires(T::mul, (p, q))
    &&& call_requires(T::mul, (u, v))
    &&& forall|m: T, n: T|
        #![trigger call_ensures(T::mul, (p, q), m), call_ensures(T::mul, (u, v), n)]
        call_ensures(T::mul, (p, q), m) && call_ensures(T::mul, (u, v), n) ==> call_requires(
            T::sub,
            (m, n),
        )
}

/// Whether `r` can be what `T` returns for `p * q - u * v`.
pub open spec fn is_minor<T: Sub<Output = T> + Mul<Output = T>>(
    p: T,
    q: T,
    u: T,
    v: T,
    r: T,
) -> bool {
    exists|m: T, n: T|
        #![trigger call_ensures(T::sub, (m, n), r)]
        call_ensures(T::mul, (p, q), m) && call_ensures(T::mul, (u, v), n) && call_ensures(
            T::sub,
            (m, n),
            r,
        )
}

/// `p * q - u * v` for an exact `T`.
pub open spec fn minor<T: Sub<Output = T> + Mul<Output = T>>(p: T, q: T, u: T, v: T) -> T {
    p.mul_spec(q).sub_spec(u.mul_spec(v))
}

/// Whether the cross product of `a` and `b` may be computed: each of its
/// three components may.
pub open spec fn cross_product_defined<T: Sub<Output = T> + Mul<Output = T>>(
    a: Vec3<T>,
    b: Vec3<T>,
) -> bool {
    &&& minor_defined(a.y, b.z, a.z, b.y)
    &&& minor_defined(a.z, b.x, a.x, b.z)
    &&& minor_defined(a.x, b.y, a.y, b.x)
}

/// Whether `r` can be what the cross product of `a` and `b` returns: its
/// components are something that `T` returns for `a.y * b.z - a.z * b.y`, for
/// `a.z * b.x - a.x * b.z` and for `a.x * b.y - a.y * b.x`.
pub open spec fn is_cross_product<T: Sub<Output = T> + Mul<Output = T>>(
    a: Vec3<T>,
    b: Vec3<T>,
    r: Vec3<T>,
) -> bool {
    &&& is_minor(a.y, b.z, a.z, b.y, r.x)
    &&& is_minor(a.z, b.x, a.x, b.z, r.y)
    &&& is_minor(a.x, b.y, a.y, b.x, r.z)
}

/// The cross product of `a` and `b` for an exact `T`, right-handed:
/// `(a.y * b.z - a.z * b.y, a.z * b.x - a.x * b.z, a.x * b.y - a.y * b.x)`.
pub open spec fn cross_product<T: Sub<Output = T> + Mul<Output = T>>(
    a: Vec3<T>,
    b: Vec3<T>,
) -> Vec3<T> {
    Vec3 {
        x: minor(a.y, b.z, a.z, b.y),
        y: minor(a.z, b.x, a.x, b.z),
        z: minor(a.x, b.y, a.y, b.x),
    }
}

impl<T: Copy + Add<Output = T> + Mul<Output = T>> Vec3<T> {
    /// The square of this vector's length: its dot product with itself.
    pub fn length_squared(&self) -> (r: T)
        requires
            dot_product_defined(*self, *self),
        ensures
            is_dot_product(*self, *self, r),
            T::obeys_mul_spec() && T::obeys_add_spec() ==> r == dot_product(*self, *self),
    {
        self.x * self.x + self.y * self.y + self.z * self.z
    }

    /// The dot product of `a` and `b`.
    pub fn dot(a: &Vec3<T>, b: &Vec3<T>) -> (r: T)
        requires
            dot_product_defined(*a, *b),
        ensures
            is_dot_product(*a, *b, r),
            T::obeys_mul_spec() && T::obeys_add_spec() ==> r == dot_product(*a, *b),
    {
        a.x * b.x + a.y * b.y + a.z * b.z
    }
}

impl<T: Copy + Sub<Output = T> + Mul<Output = T>> Vec3<T> {
    /// The cross product of `a` and `b`.
    pub fn cross(a: &Vec3<T>, b: &Vec3<T>) -> (r: Vec3<T>)
        requires
            cross_product_defined(*a, *b),
        ensures
            is_cross_product(*a, *b, r),
            T::obeys_mul_spec() && T::obeys_sub_spec() ==> r == cross_product(*a, *b),
    {
        Vec3 {
            x: a.y * b.z - a.z * b.y,
            y: a.z * b.x - a.x * b.z,
            z: a.x * b.y - a.y * b.x,
        }
    }
}

} // verus!
