//! A three-component vector over any scalar type.
//!
//! [`Vec3`] holds three scalars of one type `T`. Its constructors and
//! accessors move scalars around without looking inside them. Its arithmetic
//! is component-wise and is `T`'s own: two vectors can be added wherever `T`
//! can, each component of the sum is what `T`'s `+` returns for the matching
//! components, and so on for the other operators, for the dot and cross
//! products, for minimum and maximum, and for comparison.
//!
//! The contract of an operation therefore has three parts.
//!
//! - When it may be asked for: `T`'s operators may be called on everything
//!   that the operation calls them on. This is `sum_defined`,
//!   `dot_product_defined` and the like.
//! - What it can return, for every `T`: a value that `T`'s operators return,
//!   called in the order in which the operation calls them. This is `is_sum`,
//!   `is_dot_product` and the like.
//! - What it does return for an exact `T`, one whose operators return what
//!   `vstd` specifies for them (`T::obeys_add_spec()` and the like): this is
//!   `sum`, `dot_product` and the like. The machine integers are exact.
//!
//! A scalar whose operators are not pinned to one result, such as a number
//! with rounding, is covered by the first two parts.

pub mod addition;
pub mod axis;
pub mod comparison;
pub mod division;
pub mod extrema;
pub mod geometry;
pub mod laws;
pub mod multiplication;
pub mod negation;
pub mod subtraction;
pub mod vector;

pub use axis::Axis;
pub use vector::Vec3;
