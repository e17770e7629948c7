use vstd::prelude::*;

verus! {

/// One of the three coordinate axes. It names one component of a [`Vec3`].
///
/// [`Vec3`]: crate::vector::Vec3
#[derive(Debug, Copy, Clone)]
pub enum Axis {
    X,
    Y,
    Z,
}

} // verus!
