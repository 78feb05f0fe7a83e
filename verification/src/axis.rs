//! The three spatial axes, and coordinate containers indexed by them.

use crate::math::{BVHPoint3, BVHVector3};
use std::ops::{Index, IndexMut};
use vstd::prelude::*;

verus! {

/// An axis of a three-dimensional coordinate system.
///
/// It selects one component of a coordinate triple: `X` the first, `Y` the
/// second, `Z` the third.
#[derive(Debug, Copy, Clone, PartialEq, Eq, Structural)]
pub enum Axis {
    /// The X axis: the first component.
    X,
    /// The Y axis: the second component.
    Y,
    /// The Z axis: the third component.
    Z,
}

/// The component of the coordinate sequence `s` that `axis` names.
pub open spec fn read<T>(s: Seq<T>, axis: Axis) -> T {
    s[axis.ordinal() as int]
}

/// The coordinate sequence `s` with the component that `axis` names replaced
/// by `value`, and every other component kept.
pub open spec fn write<T>(s: Seq<T>, axis: Axis, value: T) -> Seq<T> {
    s.update(axis.ordinal() as int, value)
}

impl Axis {
    /// The zero-based position that this axis names in a coordinate triple.
    pub open spec fn ordinal(self) -> nat {
        match self {
            Axis::X => 0,
            Axis::Y => 1,
            Axis::Z => 2,
        }
    }

    /// The one-character lowercase name of this axis.
    pub open spec fn label(self) -> Seq<char> {
        match self {
            Axis::X => seq!['x'],
            Axis::Y => seq!['y'],
            Axis::Z => seq!['z'],
        }
    }

    /// The position of this axis as an index into a coordinate triple.
    pub fn as_usize(self) -> (i: usize)
        ensures
            i == self.ordinal(),
            i < 3,
    {
        match self {
            Axis::X => 0,
            Axis::Y => 1,
            Axis::Z => 2,
        }
    }

    /// The name of this axis as text: `"x"`, `"y"` or `"z"`.
    pub fn to_string(&self) -> (s: String)
        ensures
            s@ == self.label(),
    {
        proof {
            reveal_strlit("x");
            reveal_strlit("y");
            reveal_strlit("z");
        }
        let name = match *self {
            Axis::X => "x",
            Axis::Y => "y",
            Axis::Z => "z",
        };
        assert(name@ =~= self.label());
        name.to_owned()
    }
}

/// Slices are indexed by `Axis`.
impl<T> Index<Axis> for [T] {
    type Output = T;

    fn index(&self, axis: Axis) -> (r: &T)
        ensures
            *r == read(self@, axis),
    {
        &self[axis.as_usize()]
    }
}

impl<T> vstd::std_specs::core::IndexSpecImpl<Axis> for [T] {
    /// The slice must reach the position that the axis names.
    open spec fn index_req(&self, index: &Axis) -> bool {
        index.ordinal() < self@.len()
    }
}

/// Points are indexed by `Axis`.
impl<T> Index<Axis> for BVHPoint3<T> {
    type Output = T;

    fn index(&self, axis: Axis) -> (r: &T)
        ensures
            *r == read(self@, axis),
    {
        match axis {
            Axis::X => &self.x,
            Axis::Y => &self.y,
            Axis::Z => &self.z,
        }
    }
}

impl<T> vstd::std_specs::core::IndexSpecImpl<Axis> for BVHPoint3<T> {
    /// Every axis names a component of a point.
    open spec fn index_req(&self, index: &Axis) -> bool {
        true
    }
}

/// Vectors are indexed by `Axis`.
impl<T> Index<Axis> for BVHVector3<T> {
    type Output = T;

    fn index(&self, axis: Axis) -> (r: &T)
        ensures
            *r == read(self@, axis),
    {
        match axis {
            Axis::X => &self.x,
            Axis::Y => &self.y,
            Axis::Z => &self.z,
        }
    }
}

impl<T> vstd::std_specs::core::IndexSpecImpl<Axis> for BVHVector3<T> {
    /// Every axis names a component of a vector.
    open spec fn index_req(&self, index: &Axis) -> bool {
        true
    }
}

/// Slices are mutably accessible by `Axis`.
impl<T> IndexMut<Axis> for [T] {
    fn index_mut(&mut self, axis: Axis) -> (r: &mut T)
        requires
            axis.ordinal() < old(self)@.len(),
        ensures
            *r == read(old(self)@, axis),
            final(self)@ == write(old(self)@, axis, *final(r)),
    {
        &mut self[axis.as_usize()]
    }
}

/// Points are mutably accessible by `Axis`.
impl<T> IndexMut<Axis> for BVHPoint3<T> {
    fn index_mut(&mut self, axis: Axis) -> (r: &mut T)
        ensures
            *r == read(old(self)@, axis),
            final(self)@ == write(old(self)@, axis, *final(r)),
    {
        match axis {
            Axis::X => &mut self.x,
            Axis::Y => &mut self.y,
            Axis::Z => &mut self.z,
        }
    }
}

/// Vectors are mutably accessible by `Axis`.
impl<T> IndexMut<Axis> for BVHVector3<T> {
    fn index_mut(&mut self, axis: Axis) -> (r: &mut T)
        ensures
            *r == read(old(self)@, axis),
            final(self)@ == write(old(self)@, axis, *final(r)),
    {
        match axis {
            Axis::X => &mut self.x,
            Axis::Y => &mut self.y,
            Axis::Z => &mut self.z,
        }
    }
}

/// Every axis names a position inside a coordinate triple.
pub proof fn lemma_ordinal_in_range(axis: Axis)
    ensures
        axis.ordinal() < 3,
{
}

/// Two axes are equal exactly when they name the same position.
pub proof fn lemma_ordinal_injective(a: Axis, b: Axis)
    ensures
        (a == b) <==> (a.ordinal() == b.ordinal()),
{
}

/// Reading a coordinate triple by axis is reading it by position: `X` gives
/// the first component, `Y` the second and `Z` the third.
pub proof fn lemma_read_by_position<T>(a: T, b: T, c: T)
    ensures
        read(seq![a, b, c], Axis::X) == a,
        read(seq![a, b, c], Axis::Y) == b,
        read(seq![a, b, c], Axis::Z) == c,
{
}

/// The components of a point and of a vector stand in the order of the axes.
pub proof fn lemma_component_order<T>(p: BVHPoint3<T>, v: BVHVector3<T>)
    ensures
        p@.len() == 3,
        read(p@, Axis::X) == p.x,
        read(p@, Axis::Y) == p.y,
        read(p@, Axis::Z) == p.z,
        v@.len() == 3,
        read(v@, Axis::X) == v.x,
        read(v@, Axis::Y) == v.y,
        read(v@, Axis::Z) == v.z,
{
}

/// A write is seen by a read through the same axis and by no read through
/// another one, and it keeps the length of the sequence.
pub proof fn lemma_read_after_write<T>(s: Seq<T>, written: Axis, value: T, asked: Axis)
    requires
        written.ordinal() < s.len(),
        asked.ordinal() < s.len(),
    ensures
        write(s, written, value).len() == s.len(),
        asked == written ==> read(write(s, written, value), asked) == value,
        asked != written ==> read(write(s, written, value), asked) == read(s, asked),
{
}

/// Writing `a`, `b` and `c` through `X`, `Y` and `Z` into any coordinate
/// triple and reading back through the same axes gives `a`, `b` and `c`
/// again: nothing of what the triple held before is left.
pub proof fn lemma_write_then_read<T>(s: Seq<T>, a: T, b: T, c: T)
    requires
        s.len() == 3,
    ensures
        ({
            let t = write(write(write(s, Axis::X, a), Axis::Y, b), Axis::Z, c);
            &&& read(t, Axis::X) == a
            &&& read(t, Axis::Y) == b
            &&& read(t, Axis::Z) == c
            &&& t == seq![a, b, c]
        }),
{
}

} // verus!
