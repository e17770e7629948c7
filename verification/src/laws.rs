//! What holds of the operations taken together.
//!
//! First, that reading undoes replacing. Then, that for an exact `T` an
//! operation has one result. Then, that the operand forms of an operator do
//! not differ. Last, the laws of arithmetic. Those are the scalar's: where
//! `T`'s sum is commutative, so is the vector's, and so on. Each such law
//! names in its `requires` the scalar law that it lifts to vectors.

use crate::addition::is_sum;
use crate::addition::sum;
use crate::addition::sum_defined;
use crate::axis::Axis;
use crate::comparison::equality;
use crate::comparison::is_equality;
use crate::comparison::is_lexicographic;
use crate::comparison::lexicographic;
use crate::division::is_quotient;
use crate::division::quotient;
use crate::division::quotient_defined;
use crate::extrema::is_lower;
use crate::extrema::is_upper;
use crate::extrema::lower;
use crate::extrema::upper;
use crate::geometry::cross_product;
use crate::geometry::dot_product;
use crate::geometry::is_cross_product;
use crate::geometry::is_dot_product;
use crate::multiplication::is_product;
use crate::multiplication::product;
use crate::multiplication::product_defined;
use crate::negation::is_negation;
use crate::negation::negation;
use crate::negation::negation_defined;
use crate::subtraction::difference;
use crate::subtraction::is_difference;
use crate::subtraction::difference_defined;
use crate::vector::Vec3;
use std::cmp::Ordering;
use std::ops::Add;
use std::ops::Div;
use std::ops::Mul;
use std::ops::Neg;
use std::ops::Sub;
use vstd::prelude::*;
use vstd::std_specs::cmp::PartialEqSpec;
use vstd::std_specs::cmp::PartialOrdSpec;
use vstd::std_specs::ops::AddSpec;
use vstd::std_specs::ops::DivSpec;
use vstd::std_specs::ops::MulSpec;
use vstd::std_specs::ops::NegSpec;
use vstd::std_specs::ops::SubSpec;

verus! {

/// Reading back the component that was just replaced gives the new value, and
/// reading any other component gives what it held before.
pub proof fn replace_then_get<T>(a: Vec3<T>, axis: Axis, value: T)
    ensures
        a.replace(axis, value).get(axis) == value,
        forall|other: Axis| other != axis ==> a.replace(axis, value).get(other) == a.get(other),
{
}

/// For a `T` whose `+` is exact, the sum of two vectors can only be
/// `sum(a, b)`.
pub proof fn sum_is_exact<T: Add<Output = T>>(a: Vec3<T>, b: Vec3<T>, r: Vec3<T>)
    requires
        T::obeys_add_spec(),
        is_sum(a, b, r),
    ensures
        r == sum(a, b),
{
}

/// For a `T` whose `-` is exact, the difference of two vectors can only be
/// `difference(a, b)`.
pub proof fn difference_is_exact<T: Sub<Output = T>>(a: Vec3<T>, b: Vec3<T>, r: Vec3<T>)
    requires
        T::obeys_sub_spec(),
        is_difference(a, b, r),
    ensures
        r == difference(a, b),
{
}

/// For a `T` whose `*` is exact, the product of two vectors can only be
/// `product(a, b)`.
pub proof fn product_is_exact<T: Mul<Output = T>>(a: Vec3<T>, b: Vec3<T>, r: Vec3<T>)
    requires
        T::obeys_mul_spec(),
        is_product(a, b, r),
    ensures
        r == product(a, b),
{
}

/// For a `T` whose `/` is exact, the quotient of two vectors can only be
/// `quotient(a, b)`.
pub proof fn quotient_is_exact<T: Div<Output = T>>(a: Vec3<T>, b: Vec3<T>, r: Vec3<T>)
    requires
        T::obeys_div_spec(),
        is_quotient(a, b, r),
    ensures
        r == quotient(a, b),
{
}

/// For a `T` whose `-` is exact, the negation of a vector can only be
/// `negation(a)`.
pub proof fn negation_is_exact<T: Neg<Output = T>>(a: Vec3<T>, r: Vec3<T>)
    requires
        T::obeys_neg_spec(),
        is_negation(a, r),
    ensures
        r == negation(a),
{
}

/// For a `T` whose `*` and `+` are exact, the dot product of two vectors can
/// only be `dot_product(a, b)`.
pub proof fn dot_product_is_exact<T: Add<Output = T> + Mul<Output = T>>(
    a: Vec3<T>,
    b: Vec3<T>,
    r: T,
)
    requires
        T::obeys_mul_spec(),
        T::obeys_add_spec(),
        is_dot_product(a, b, r),
    ensures
        r == dot_product(a, b),
{
}

/// For a `T` whose `*` and `-` are exact, the cross product of two vectors can
/// only be `cross_product(a, b)`.
pub proof fn cross_product_is_exact<T: Sub<Output = T> + Mul<Output = T>>(
    a: Vec3<T>,
    b: Vec3<T>,
    r: Vec3<T>,
)
    requires
        T::obeys_mul_spec(),
        T::obeys_sub_spec(),
        is_cross_product(a, b, r),
    ensures
        r == cross_product(a, b),
{
}

/// For a `T` whose comparisons are exact, the component-wise minimum of two
/// vectors can only be `lower(a, b)`, and their component-wise maximum only
/// `upper(a, b)`.
pub proof fn extrema_are_exact<T: PartialOrd>(a: Vec3<T>, b: Vec3<T>, r: Vec3<T>)
    requires
        T::obeys_partial_cmp_spec(),
    ensures
        is_lower(a, b, r) ==> r == lower(a, b),
        is_upper(a, b, r) ==> r == upper(a, b),
{
}

/// For a `T` whose comparisons are exact, two vectors compare as `equality`
/// and `lexicographic` say.
pub proof fn comparison_is_exact<T: PartialOrd>(
    a: Vec3<T>,
    b: Vec3<T>,
    e: bool,
    o: Option<Ordering>,
)
    ensures
        T::obeys_eq_spec() && is_equality(a, b, e) ==> e == equality(a, b),
        T::obeys_partial_cmp_spec() && is_lexicographic(a, b, o) ==> o == lexicographic(a, b),
{
}

/// Whichever way the operands of `+` are passed, each by value or by
/// reference, the sum is defined on the same vectors and is the same vector.
/// A scalar on the right stands for the vector that holds it three times,
/// whichever way the vector on the left is passed.
pub proof fn sum_ignores_operand_form<T: Copy + Add<Output = T>>(a: Vec3<T>, b: Vec3<T>, s: T)
    ensures
        (&a).add_req(&b) == sum_defined(a, b),
        a.add_req(&b) == sum_defined(a, b),
        (&a).add_req(b) == sum_defined(a, b),
        a.add_req(b) == sum_defined(a, b),
        (&a).add_spec(&b) == sum(a, b),
        a.add_spec(&b) == sum(a, b),
        (&a).add_spec(b) == sum(a, b),
        a.add_spec(b) == sum(a, b),
        (&a).add_req(s) == sum_defined(a, Vec3::splat(s)),
        a.add_req(s) == sum_defined(a, Vec3::splat(s)),
        (&a).add_spec(s) == sum(a, Vec3::splat(s)),
        a.add_spec(s) == sum(a, Vec3::splat(s)),
{
}

/// Whichever way the operands of `-` are passed, each by value or by
/// reference, the difference is defined on the same vectors and is the same
/// vector. A scalar on the right stands for the vector that holds it three times,
/// whichever way the vector on the left is passed.
pub proof fn difference_ignores_operand_form<T: Copy + Sub<Output = T>>(
    a: Vec3<T>,
    b: Vec3<T>,
    s: T,
)
    ensures
        (&a).sub_req(&b) == difference_defined(a, b),
        a.sub_req(&b) == difference_defined(a, b),
        (&a).sub_req(b) == difference_defined(a, b),
        a.sub_req(b) == difference_defined(a, b),
        (&a).sub_spec(&b) == difference(a, b),
        a.sub_spec(&b) == difference(a, b),
        (&a).sub_spec(b) == difference(a, b),
        a.sub_spec(b) == difference(a, b),
        (&a).sub_req(s) == difference_defined(a, Vec3::splat(s)),
        a.sub_req(s) == difference_defined(a, Vec3::splat(s)),
        (&a).sub_spec(s) == difference(a, Vec3::splat(s)),
        a.sub_spec(s) == difference(a, Vec3::splat(s)),
{
}

/// Whichever way the operands of `*` are passed, each by value or by
/// reference, the product is defined on the same vectors and is the same vector.
/// A scalar on the right stands for the vector that holds it three times,
/// whichever way the vector on the left is passed.
pub proof fn product_ignores_operand_form<T: Copy + Mul<Output = T>>(a: Vec3<T>, b: Vec3<T>, s: T)
    ensures
        (&a).mul_req(&b) == product_defined(a, b),
        a.mul_req(&b) == product_defined(a, b),
        (&a).mul_req(b) == product_defined(a, b),
        a.mul_req(b) == product_defined(a, b),
        (&a).mul_spec(&b) == product(a, b),
        a.mul_spec(&b) == product(a, b),
        (&a).mul_spec(b) == product(a, b),
        a.mul_spec(b) == product(a, b),
        (&a).mul_req(s) == product_defined(a, Vec3::splat(s)),
        a.mul_req(s) == product_defined(a, Vec3::splat(s)),
        (&a).mul_spec(s) == product(a, Vec3::splat(s)),
        a.mul_spec(s) == product(a, Vec3::splat(s)),
{
}

/// Whichever way the operands of `/` are passed, each by value or by
/// reference, the quotient is defined on the same vectors and is the same vector.
/// A scalar on the right stands for the vector that holds it three times,
/// whichever way the vector on the left is passed.
pub proof fn quotient_ignores_operand_form<T: Copy + Div<Output = T>>(a: Vec3<T>, b: Vec3<T>, s: T)
    ensures
        (&a).div_req(&b) == quotient_defined(a, b),
        a.div_req(&b) == quotient_defined(a, b),
        (&a).div_req(b) == quotient_defined(a, b),
        a.div_req(b) == quotient_defined(a, b),
        (&a).div_spec(&b) == quotient(a, b),
        a.div_spec(&b) == quotient(a, b),
        (&a).div_spec(b) == quotient(a, b),
        a.div_spec(b) == quotient(a, b),
        (&a).div_req(s) == quotient_defined(a, Vec3::splat(s)),
        a.div_req(s) == quotient_defined(a, Vec3::splat(s)),
        (&a).div_spec(s) == quotient(a, Vec3::splat(s)),
        a.div_spec(s) == quotient(a, Vec3::splat(s)),
{
}

/// `-a` and `-&a` are defined on the same vectors and are the same vector.
pub proof fn negation_ignores_operand_form<T: Copy + Neg<Output = T>>(a: Vec3<T>)
    ensures
        (&a).neg_req() == negation_defined(a),
        a.neg_req() == negation_defined(a),
        (&a).neg_spec() == negation(a),
        a.neg_spec() == negation(a),
{
}

/// Where the scalar sum is commutative, so is the sum of vectors.
pub proof fn sum_commutes<T: Add<Output = T>>(a: Vec3<T>, b: Vec3<T>)
    requires
        forall|p: T, q: T| #[trigger] p.add_spec(q) == q.add_spec(p),
    ensures
        sum(a, b) == sum(b, a),
{
}

/// Where the scalar sum is associative, so is the sum of vectors.
pub proof fn sum_associates<T: Add<Output = T>>(a: Vec3<T>, b: Vec3<T>, c: Vec3<T>)
    requires
        forall|p: T, q: T, r: T| #[trigger] p.add_spec(q).add_spec(r) == p.add_spec(q.add_spec(r)),
    ensures
        sum(sum(a, b), c) == sum(a, sum(b, c)),
{
}

/// Adding the vector of three zeros changes nothing, where `zero` is a scalar
/// that changes nothing when added.
pub proof fn sum_with_zero<T: Add<Output = T>>(a: Vec3<T>, zero: T)
    requires
        forall|p: T| #[trigger] p.add_spec(zero) == p,
    ensures
        sum(a, Vec3::splat(zero)) == a,
{
}

/// Multiplying by the vector of three ones, which is scaling by one, changes
/// nothing, where `one` is a scalar that changes nothing when multiplied by.
pub proof fn product_with_one<T: Mul<Output = T>>(a: Vec3<T>, one: T)
    requires
        forall|p: T| #[trigger] p.mul_spec(one) == p,
    ensures
        product(a, Vec3::splat(one)) == a,
{
}

/// Where the scalar product is commutative, scaling a vector by `s` gives the
/// same vector whether `s` is the right factor of each component or the left.
pub proof fn scaling_commutes<T: Mul<Output = T>>(a: Vec3<T>, s: T)
    requires
        forall|p: T, q: T| #[trigger] p.mul_spec(q) == q.mul_spec(p),
    ensures
        product(a, Vec3::splat(s)) == product(Vec3::splat(s), a),
{
}

/// Where the scalar product is commutative, so is the dot product.
pub proof fn dot_product_commutes<T: Add<Output = T> + Mul<Output = T>>(a: Vec3<T>, b: Vec3<T>)
    requires
        forall|p: T, q: T| #[trigger] p.mul_spec(q) == q.mul_spec(p),
    ensures
        dot_product(a, b) == dot_product(b, a),
{
}

/// Swapping the operands of the cross product negates it, where the scalar
/// product is commutative and swapping the operands of the scalar difference
/// negates it.
pub proof fn cross_product_anticommutes<T: Sub<Output = T> + Mul<Output = T> + Neg<Output = T>>(
    a: Vec3<T>,
    b: Vec3<T>,
)
    requires
        forall|p: T, q: T| #[trigger] p.mul_spec(q) == q.mul_spec(p),
        forall|p: T, q: T| #[trigger] p.sub_spec(q) == q.sub_spec(p).neg_spec(),
    ensures
        cross_product(a, b) == negation(cross_product(b, a)),
{
}

/// The cross product of a vector with itself is the vector of three zeros,
/// where the scalar product is commutative and `zero` is the difference of
/// every scalar and itself.
pub proof fn cross_product_with_self<T: Sub<Output = T> + Mul<Output = T>>(a: Vec3<T>, zero: T)
    requires
        forall|p: T, q: T| #[trigger] p.mul_spec(q) == q.mul_spec(p),
        forall|p: T| #[trigger] p.sub_spec(p) == zero,
    ensures
        cross_product(a, a) == Vec3::splat(zero),
{
}

} // verus!
