//! Vectors of three single-precision components.
use crate::scalar::{Scalar, ONE, ZERO};
use vstd::prelude::*;
use vstd::std_specs::cmp::PartialEqSpecImpl;

verus! {

/// A point or a direction in space.
///
/// Whether a vector has unit length is a matter of arithmetic, which the
/// library leaves to its caller. A vector that has passed the caller's length
/// test carries the mark `unit`; a vector without the mark is not taken for a
/// direction, whatever its components are.
#[derive(Clone, Copy, Debug)]
pub struct Vec3 {
    pub x: Scalar,
    pub y: Scalar,
    pub z: Scalar,
    pub unit: bool,
}

impl Vec3 {
    /// The first axis, `(1, 0, 0)`.
    pub open spec fn spec_unit_x() -> Vec3 {
        Vec3 { x: Scalar { bits: ONE }, y: Scalar { bits: ZERO }, z: Scalar { bits: ZERO }, unit: true }
    }

    /// The second axis, `(0, 1, 0)`.
    pub open spec fn spec_unit_y() -> Vec3 {
        Vec3 { x: Scalar { bits: ZERO }, y: Scalar { bits: ONE }, z: Scalar { bits: ZERO }, unit: true }
    }

    /// The third axis, `(0, 0, 1)`.
    pub open spec fn spec_unit_z() -> Vec3 {
        Vec3 { x: Scalar { bits: ZERO }, y: Scalar { bits: ZERO }, z: Scalar { bits: ONE }, unit: true }
    }

    /// Whether the vector carries the mark of unit length.
    pub open spec fn spec_is_normalized(&self) -> bool {
        self.unit
    }

    /// A vector of the given components, without the mark of unit length.
    pub fn new(x: Scalar, y: Scalar, z: Scalar) -> (r: Vec3)
        ensures
            r == (Vec3 { x, y, z, unit: false }),
    {
        Vec3 { x, y, z, unit: false }
    }

    /// A vector of the given components that has passed the length test.
    pub fn new_unit(x: Scalar, y: Scalar, z: Scalar) -> (r: Vec3)
        ensures
            r == (Vec3 { x, y, z, unit: true }),
    {
        Vec3 { x, y, z, unit: true }
    }

    /// The first axis, `(1, 0, 0)`.
    #[verifier::when_used_as_spec(spec_unit_x)]
    pub fn unit_x() -> (r: Vec3)
        ensures
            r == Vec3::spec_unit_x(),
    {
        Vec3 { x: Scalar { bits: ONE }, y: Scalar { bits: ZERO }, z: Scalar { bits: ZERO }, unit: true }
    }

    /// The second axis, `(0, 1, 0)`.
    #[verifier::when_used_as_spec(spec_unit_y)]
    pub fn unit_y() -> (r: Vec3)
        ensures
            r == Vec3::spec_unit_y(),
    {
        Vec3 { x: Scalar { bits: ZERO }, y: Scalar { bits: ONE }, z: Scalar { bits: ZERO }, unit: true }
    }

    /// The third axis, `(0, 0, 1)`.
    #[verifier::when_used_as_spec(spec_unit_z)]
    pub fn unit_z() -> (r: Vec3)
        ensures
            r == Vec3::spec_unit_z(),
    {
        Vec3 { x: Scalar { bits: ZERO }, y: Scalar { bits: ZERO }, z: Scalar { bits: ONE }, unit: true }
    }

    /// Whether the vector carries the mark of unit length.
    #[verifier::when_used_as_spec(spec_is_normalized)]
    pub fn is_normalized(&self) -> (r: bool)
        ensures
            r == self.spec_is_normalized(),
    {
        self.unit
    }
}

impl PartialEq for Vec3 {
    /// Equality of the components as numbers; the mark takes no part.
    fn eq(&self, other: &Vec3) -> (r: bool) {
        self.x == other.x && self.y == other.y && self.z == other.z
    }
}

impl PartialEqSpecImpl for Vec3 {
    open spec fn obeys_eq_spec() -> bool {
        true
    }

    open spec fn eq_spec(&self, other: &Vec3) -> bool {
        self.x.same_number(other.x) && self.y.same_number(other.y) && self.z.same_number(other.z)
    }
}

} // verus!
