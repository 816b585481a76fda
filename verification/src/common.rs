//! Rays and colors.
use crate::scalar::Scalar;
use crate::vector::Vec3;
use vstd::prelude::*;

verus! {

/// A ray: a starting point and a direction of unit length.
#[derive(Clone, Copy, Debug, PartialEq)]
pub struct Ray {
    point: Vec3,
    direction: Vec3,
}

impl Ray {
    #[verifier::type_invariant]
    spec fn well_formed(self) -> bool {
        self.direction.unit
    }

    /// The starting point of the ray.
    pub closed spec fn spec_point(&self) -> Vec3 {
        self.point
    }

    /// The direction of the ray.
    pub closed spec fn spec_direction(&self) -> Vec3 {
        self.direction
    }

    /// The ray from `point` along `direction`, which must have passed the
    /// length test.
    pub fn new(point: Vec3, direction: Vec3) -> (r: Ray)
        requires
            direction.is_normalized(),
        ensures
            r.point() == point,
            r.direction() == direction,
    {
        Ray { point, direction }
    }

    /// The starting point of the ray.
    #[verifier::when_used_as_spec(spec_point)]
    pub fn point(&self) -> (r: Vec3)
        ensures
            r == self.spec_point(),
    {
        self.point
    }

    /// The direction of the ray: always a vector of unit length.
    #[verifier::when_used_as_spec(spec_direction)]
    pub fn direction(&self) -> (r: Vec3)
        ensures
            r == self.spec_direction(),
            r.is_normalized(),
    {
        proof {
            use_type_invariant(self);
        }
        self.direction
    }
}

/// A color of three channels, each in `[0, 1]`.
#[derive(Clone, Copy, Debug, PartialEq)]
pub struct Color {
    channels: Vec3,
}

impl Color {
    #[verifier::type_invariant]
    spec fn well_formed(self) -> bool {
        &&& self.channels.x.in_unit_interval()
        &&& self.channels.y.in_unit_interval()
        &&& self.channels.z.in_unit_interval()
    }

    /// The channels as a vector: red, green, blue.
    pub closed spec fn spec_to_vec3(&self) -> Vec3 {
        self.channels
    }

    /// The color of the given channels, each of which must lie in `[0, 1]`.
    pub fn new(r: Scalar, g: Scalar, b: Scalar) -> (color: Color)
        requires
            r.in_unit_interval(),
            g.in_unit_interval(),
            b.in_unit_interval(),
        ensures
            color.to_vec3() == (Vec3 { x: r, y: g, z: b, unit: false }),
    {
        Color { channels: Vec3::new(r, g, b) }
    }

    /// Whether three numbers can be the channels of a color.
    pub fn admits(r: Scalar, g: Scalar, b: Scalar) -> (ok: bool)
        ensures
            ok == (r.in_unit_interval() && g.in_unit_interval() && b.in_unit_interval()),
    {
        r >= Scalar::zero() && r <= Scalar::one() && g >= Scalar::zero() && g <= Scalar::one() && b
            >= Scalar::zero() && b <= Scalar::one()
    }

    /// The channels as a vector, each in `[0, 1]`.
    #[verifier::when_used_as_spec(spec_to_vec3)]
    pub fn to_vec3(&self) -> (r: Vec3)
        ensures
            r == self.spec_to_vec3(),
            r.x.in_unit_interval(),
            r.y.in_unit_interval(),
            r.z.in_unit_interval(),
    {
        proof {
            use_type_invariant(self);
        }
        self.channels
    }
}

} // verus!
