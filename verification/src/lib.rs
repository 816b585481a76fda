//! The decision core of a Monte-Carlo path tracer.
//!
//! Single-precision numbers are held as their IEEE-754 bit patterns. The
//! library does no arithmetic on them: sums, products, roots and random
//! draws are made by the caller. What the library holds is every choice that
//! the tracer makes on such numbers: which root of a sphere's quadratic is
//! the hit, when a plane is missed, which hit is nearest, whether a path
//! ends on a light, an object or nothing, how a material bounces, and what
//! is written to a pixel.
use vstd::prelude::*;

pub mod common;
pub mod light;
pub mod material;
pub mod object;
pub mod render;
pub mod scalar;
pub mod shape;
pub mod value;
pub mod vector;

use crate::scalar::Scalar;

verus! {

/// The bit pattern of `0.0001`, the least ray parameter that counts as a
/// hit: nearer roots are taken for the surface the ray has just left.
pub const EPSILON: u32 = 0x38D1_B717;

/// The number whose pattern is `EPSILON`.
pub open spec fn spec_epsilon() -> Scalar {
    Scalar { bits: EPSILON }
}

/// The least ray parameter that counts as a hit.
#[verifier::when_used_as_spec(spec_epsilon)]
pub fn epsilon() -> (r: Scalar)
    ensures
        r == spec_epsilon(),
{
    Scalar { bits: EPSILON }
}

} // verus!
