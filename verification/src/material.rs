//! Materials: how light leaves a surface.
use crate::common::{Color, Ray};
use crate::scalar::Scalar;
use crate::vector::Vec3;
use vstd::prelude::*;

verus! {

/// A material. It says how a ray leaves a surface made of it, and which
/// color the surface lends to the light that comes back along that ray.
pub trait Material {
    /// The ray that leaves the surface at `point`, where the normal is
    /// `normal`, for the incoming `ray`.
    fn scatter(&self, ray: Ray, point: Vec3, normal: Vec3) -> Ray;

    /// The color of the surface at `point`.
    fn color(&self, point: Vec3, normal: Vec3) -> Color;
}

/// The two ways in which a simple material sends a ray on.
#[derive(Clone, Copy, Debug, PartialEq, Eq, Structural)]
pub enum Bounce {
    /// Towards a random point of the unit sphere that sits on the surface.
    Diffuse,
    /// Mirrored about the normal, and blurred by the material's fuzzyness.
    Specular,
}

/// A material of one color that scatters some rays and mirrors the others.
#[derive(Clone, Copy, Debug)]
pub struct Simple {
    /// The color of the surface.
    pub color: Color,
    /// The share of rays that are scattered.
    pub diffuse: Scalar,
    /// How far a mirrored ray strays from the exact reflection.
    pub fuzzyness: Scalar,
}

impl Simple {
    /// How the material sends a ray on, for a draw `u` from `[0, 1)`:
    /// scattered if `diffuse` is above the draw, mirrored otherwise.
    pub open spec fn spec_bounce(&self, u: Scalar) -> Bounce {
        if self.diffuse.spec_gt(u) {
            Bounce::Diffuse
        } else {
            Bounce::Specular
        }
    }

    /// Whether a vector drawn from the cube `[-1, 1)³` is kept as a sample of
    /// the unit sphere: its squared length is below one.
    pub open spec fn spec_keeps_sample(length_squared: Scalar) -> bool {
        length_squared.spec_lt(Scalar::spec_one())
    }

    /// How the material sends a ray on, for a draw `u` from `[0, 1)`.
    #[verifier::when_used_as_spec(spec_bounce)]
    pub fn bounce(&self, u: Scalar) -> (r: Bounce)
        ensures
            r == self.spec_bounce(u),
    {
        if self.diffuse > u {
            Bounce::Diffuse
        } else {
            Bounce::Specular
        }
    }

    /// Whether a vector of the given squared length, drawn from the cube
    /// `[-1, 1)³`, is kept as a sample of the unit sphere.
    #[verifier::when_used_as_spec(spec_keeps_sample)]
    pub fn keeps_sample(length_squared: Scalar) -> (r: bool)
        ensures
            r == Simple::spec_keeps_sample(length_squared),
    {
        length_squared < Scalar::one()
    }

    /// The color of the surface: the same at every point.
    pub fn color(&self, _point: Vec3, _normal: Vec3) -> (r: Color)
        ensures
            r == self.color,
    {
        self.color
    }
}

/// A material whose `diffuse` is zero mirrors every ray: no draw from
/// `[0, 1)` lies below zero.
pub proof fn lemma_mirror_never_scatters(material: Simple, u: Scalar)
    requires
        material.diffuse.rank() == 0,
        u.spec_ge(Scalar::spec_zero()),
    ensures
        material.spec_bounce(u) == Bounce::Specular,
{
}

/// A material whose `diffuse` is one scatters every ray: every draw from
/// `[0, 1)` lies below one.
pub proof fn lemma_matte_always_scatters(material: Simple, u: Scalar)
    requires
        material.diffuse == Scalar::spec_one(),
        u.spec_ge(Scalar::spec_zero()),
        u.spec_lt(Scalar::spec_one()),
    ensures
        material.spec_bounce(u) == Bounce::Diffuse,
{
}

} // verus!
