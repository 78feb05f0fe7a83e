//! Axis addressing for three-dimensional coordinate containers.
//!
//! [`axis::Axis`] names one of the three spatial dimensions. A slice of
//! coordinates, a [`math::BVHPoint3`] and a [`math::BVHVector3`] are read and
//! written through it with the ordinary index operator, so that code which
//! runs "for each axis" is written once.
//!
//! The scalar type of a container is a parameter: addressing moves scalars
//! and never computes with them.

pub mod axis;
pub mod math;
