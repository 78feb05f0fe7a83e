//! Plain three-component points and vectors.
//!
//! Both types hold their components in the fixed order `x`, `y`, `z`, which is
//! the order of the axes. They are distinct nominal types, so a point is never
//! taken for a vector.

use vstd::prelude::*;

verus! {

/// A position in three-dimensional space.
#[derive(Debug, PartialEq)]
pub struct BVHPoint3<T> {
    /// The first component.
    pub x: T,
    /// The second component.
    pub y: T,
    /// The third component.
    pub z: T,
}

/// A displacement in three-dimensional space.
#[derive(Debug, PartialEq)]
pub struct BVHVector3<T> {
    /// The first component.
    pub x: T,
    /// The second component.
    pub y: T,
    /// The third component.
    pub z: T,
}

impl<T: Copy> Clone for BVHPoint3<T> {
    fn clone(&self) -> (p: Self)
        ensures
            p == *self,
    {
        *self
    }
}

impl<T: Copy> Copy for BVHPoint3<T> {

}

impl<T> View for BVHPoint3<T> {
    type V = Seq<T>;

    /// The components as a sequence of length three, in the order of the axes.
    open spec fn view(&self) -> Seq<T> {
        seq![self.x, self.y, self.z]
    }
}

impl<T: Copy> Clone for BVHVector3<T> {
    fn clone(&self) -> (v: Self)
        ensures
            v == *self,
    {
        *self
    }
}

impl<T: Copy> Copy for BVHVector3<T> {

}

impl<T> View for BVHVector3<T> {
    type V = Seq<T>;

    /// The components as a sequence of length three, in the order of the axes.
    open spec fn view(&self) -> Seq<T> {
        seq![self.x, self.y, self.z]
    }
}

impl<T> BVHPoint3<T> {
    /// The point with the given components.
    pub fn new(x: T, y: T, z: T) -> (p: Self)
        ensures
            p == (BVHPoint3 { x, y, z }),
            p@ == seq![x, y, z],
    {
        BVHPoint3 { x, y, z }
    }
}

impl<T> BVHVector3<T> {
    /// The vector with the given components.
    pub fn new(x: T, y: T, z: T) -> (v: Self)
        ensures
            v == (BVHVector3 { x, y, z }),
            v@ == seq![x, y, z],
    {
        BVHVector3 { x, y, z }
    }
}

} // verus!
