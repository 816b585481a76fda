//! Lights, and the radiance that travels along a ray.
use crate::common::Color;
use crate::scalar::Scalar;
use crate::shape::Shape;
use vstd::prelude::*;

verus! {

/// A sample of radiance: a color and an intensity.
#[derive(Clone, Copy, Debug, PartialEq)]
pub struct LightRay {
    pub color: Color,
    pub intensity: Scalar,
}

impl LightRay {
    /// The radiance that leaves a surface for the radiance `self` that
    /// reaches it, from the product of the two colors: the surface changes
    /// the color and leaves the intensity as it is.
    pub fn tinted(self, product: Color) -> (r: LightRay)
        ensures
            r == (LightRay { color: product, intensity: self.intensity }),
    {
        LightRay { color: product, intensity: self.intensity }
    }
}

/// A light in a scene: a shape that emits the same radiance from every
/// point.
#[derive(Clone, Copy, Debug)]
pub struct Light {
    /// The shape of this light.
    pub shape: Shape,
    /// The color of this light.
    pub color: Color,
    /// The intensity of this light.
    pub intensity: Scalar,
}

impl Light {
    /// Whether a number can be the intensity of a light: it is not below
    /// zero.
    pub open spec fn spec_admits(intensity: Scalar) -> bool {
        intensity.spec_ge(Scalar::spec_zero())
    }

    /// Whether the intensity of the light is not below zero.
    pub open spec fn well_formed(&self) -> bool {
        Light::spec_admits(self.intensity)
    }

    /// What the light emits.
    pub open spec fn spec_light_ray(&self) -> LightRay {
        LightRay { color: self.color, intensity: self.intensity }
    }

    /// Whether a number can be the intensity of a light.
    #[verifier::when_used_as_spec(spec_admits)]
    pub fn admits(intensity: Scalar) -> (ok: bool)
        ensures
            ok == Light::spec_admits(intensity),
    {
        intensity >= Scalar::zero()
    }

    /// The light of the given shape, color and intensity.
    pub fn new(shape: Shape, color: Color, intensity: Scalar) -> (r: Light)
        requires
            Light::spec_admits(intensity),
        ensures
            r == (Light { shape, color, intensity }),
            r.well_formed(),
    {
        Light { shape, color, intensity }
    }

    /// What the light emits, from whichever point of it.
    #[verifier::when_used_as_spec(spec_light_ray)]
    pub fn light_ray(&self) -> (r: LightRay)
        ensures
            r == self.spec_light_ray(),
    {
        LightRay { color: self.color, intensity: self.intensity }
    }
}

} // verus!
