//! Objects: shapes made of a material.
use crate::material::Material;
use crate::shape::Shape;
use std::sync::Arc;
use vstd::prelude::*;

verus! {

/// An object in space: a shape and the material it is made of. One material
/// may be shared by many objects.
pub struct Object {
    pub shape: Shape,
    pub material: Arc<dyn Material>,
}

} // verus!
