use crate::axis::Axis;
use vstd::prelude::*;

verus! {

/// Three scalars `x`, `y` and `z` of one type.
///
/// The type is a plain value: it has no invariant, every combination of
/// components is a vector, and two vectors are the same when their components
/// are.
#[derive(Copy, Debug)]
pub struct Vec3<T> {
    pub x: T,
    pub y: T,
    pub z: T,
}

impl<T: Copy> Clone for Vec3<T> {
    fn clone(&self) -> (r: Self)
        ensures
            r == *self,
    {
        *self
    }
}

impl<T> Vec3<T> {
    /// The vector whose three components all equal `value`.
    pub open spec fn splat(value: T) -> Vec3<T> {
        Vec3 { x: value, y: value, z: value }
    }

    /// The component that `axis` names.
    pub open spec fn get(self, axis: Axis) -> T {
        match axis {
            Axis::X => self.x,
            Axis::Y => self.y,
            Axis::Z => self.z,
        }
    }

    /// This vector with the component that `axis` names replaced by `value`.
    pub open spec fn replace(self, axis: Axis, value: T) -> Vec3<T> {
        match axis {
            Axis::X => Vec3 { x: value, y: self.y, z: self.z },
            Axis::Y => Vec3 { x: self.x, y: value, z: self.z },
            Axis::Z => Vec3 { x: self.x, y: self.y, z: value },
        }
    }
}

impl<T: Copy> Vec3<T> {
    /// Spreads one scalar over all three components.
    pub fn from_float(value: T) -> (r: Vec3<T>)
        ensures
            r == Vec3::splat(value),
    {
        Vec3 { x: value, y: value, z: value }
    }

    /// Builds a vector from its components, taken as they are.
    pub fn new(x: T, y: T, z: T) -> (r: Vec3<T>)
        ensures
            r == (Vec3 { x: x, y: y, z: z }),
    {
        Vec3 { x: x, y: y, z: z }
    }

    /// Returns the component of this vector along `axis`: `v.component(Axis::X)`
    /// is `v.x`.
    pub fn component(&self, axis: Axis) -> (r: T)
        ensures
            r == self.get(axis),
    {
        match axis {
            Axis::X => self.x,
            Axis::Y => self.y,
            Axis::Z => self.z,
        }
    }

    /// Overwrites the component of this vector along `axis` and leaves the
    /// other two as they were.
    pub fn set_component(&mut self, axis: Axis, value: T)
        ensures
            *final(self) == old(self).replace(axis, value),
    {
        match axis {
            Axis::X => {
                self.x = value;
            },
            Axis::Y => {
                self.y = value;
            },
            Axis::Z => {
                self.z = value;
            },
        }
    }

    /// Returns a copy of this vector with `x` in place of its first component.
    pub fn with_x(self, x: T) -> (r: Vec3<T>)
        ensures
            r == self.replace(Axis::X, x),
    {
        Vec3 { x: x, y: self.y, z: self.z }
    }

    /// Returns a copy of this vector with `y` in place of its second component.
    pub fn with_y(self, y: T) -> (r: Vec3<T>)
        ensures
            r == self.replace(Axis::Y, y),
    {
        Vec3 { x: self.x, y: y, z: self.z }
    }

    /// Returns a copy of this vector with `z` in place of its third component.
    pub fn with_z(self, z: T) -> (r: Vec3<T>)
        ensures
            r == self.replace(Axis::Z, z),
    {
        Vec3 { x: self.x, y: self.y, z: z }
    }
}

} // verus!
