//! Spheres and planes, and where a ray meets them.
//!
//! The arithmetic of an intersection is the caller's: it forms the
//! discriminant and the roots of a sphere's quadratic, or a plane's
//! denominator and quotient, and hands them over. The choice among them is
//! made here.
use crate::epsilon;
use crate::scalar::Scalar;
use crate::vector::Vec3;
use vstd::prelude::*;
use vstd::std_specs::convert::FromSpecImpl;

verus! {

/// Where a ray meets a shape.
#[derive(Clone, Copy, Debug, PartialEq)]
pub struct Intersection {
    /// The point of the surface that was hit.
    pub point: Vec3,
    /// The surface normal at that point.
    pub normal: Vec3,
    /// The ray parameter of the hit: its distance from the ray's start.
    pub t: Scalar,
}

/// A sphere.
#[derive(Clone, Copy, Debug)]
pub struct Sphere {
    pub center: Vec3,
    pub radius: Scalar,
}

impl Sphere {
    /// Whether `t` counts as a hit: a number that is not below `EPSILON`.
    pub open spec fn valid_root(t: Scalar) -> bool {
        t.spec_ge(epsilon())
    }

    /// The ray parameter at which a ray meets a sphere, from the discriminant
    /// of the quadratic and its two roots: nothing under a negative
    /// discriminant; else the lesser root if it is valid, else the greater
    /// root if it is valid, else nothing.
    pub open spec fn spec_hit_parameter(discriminant: Scalar, t1: Scalar, t2: Scalar) -> Option<
        Scalar,
    > {
        let near = if t1.spec_lt(t2) {
            t1
        } else {
            t2
        };
        let far = if t1.spec_lt(t2) {
            t2
        } else {
            t1
        };
        if discriminant.spec_lt(Scalar::spec_zero()) {
            None
        } else if Sphere::valid_root(near) {
            Some(near)
        } else if Sphere::valid_root(far) {
            Some(far)
        } else {
            None
        }
    }

    /// The surface normal of a sphere, from the normalized vector from its
    /// center to the point: that vector, or the third axis where the point is
    /// the center and there is none.
    pub open spec fn spec_normal(outward: Option<Vec3>) -> Vec3 {
        match outward {
            Some(n) => n,
            None => Vec3::spec_unit_z(),
        }
    }

    /// Picks the hit among the roots of the quadratic.
    ///
    /// What comes back is a root, it is valid, and no valid root is less; and
    /// nothing comes back only if the discriminant is negative or neither
    /// root is valid.
    #[verifier::when_used_as_spec(spec_hit_parameter)]
    pub fn hit_parameter(discriminant: Scalar, t1: Scalar, t2: Scalar) -> (r: Option<Scalar>)
        ensures
            r == Sphere::spec_hit_parameter(discriminant, t1, t2),
            r matches Some(t) ==> {
                &&& t == t1 || t == t2
                &&& Sphere::valid_root(t)
                &&& t.spec_gt(Scalar::spec_zero())
                &&& Sphere::valid_root(t1) ==> t.spec_le(t1)
                &&& Sphere::valid_root(t2) ==> t.spec_le(t2)
            },
            r is None <==> discriminant.spec_lt(Scalar::spec_zero()) || (!Sphere::valid_root(t1)
                && !Sphere::valid_root(t2)),
    {
        if discriminant < Scalar::zero() {
            return None;
        }
        let (near, far) = if t1 < t2 {
            (t1, t2)
        } else {
            (t2, t1)
        };
        if near >= epsilon() {
            Some(near)
        } else if far >= epsilon() {
            Some(far)
        } else {
            None
        }
    }

    /// The surface normal of a sphere, from the normalized vector from its
    /// center to the point, if there is one.
    #[verifier::when_used_as_spec(spec_normal)]
    pub fn normal(outward: Option<Vec3>) -> (r: Vec3)
        ensures
            r == Sphere::spec_normal(outward),
    {
        match outward {
            Some(n) => n,
            None => Vec3::unit_z(),
        }
    }
}

/// A plane: a point of it and its normal, a vector of unit length.
#[derive(Clone, Copy, Debug)]
pub struct Plane {
    point: Vec3,
    normal: Vec3,
}

impl Plane {
    #[verifier::type_invariant]
    spec fn well_formed(self) -> bool {
        self.normal.unit
    }

    /// The point that the plane was made with.
    pub closed spec fn spec_point(&self) -> Vec3 {
        self.point
    }

    /// The normal of the plane.
    pub closed spec fn spec_normal(&self) -> Vec3 {
        self.normal
    }

    /// Whether a ray meets the plane, from the product of the ray's
    /// direction with the normal and from the ray parameter computed with it:
    /// the product is a number other than zero, and the parameter is a number
    /// above `EPSILON`.
    pub open spec fn meets(dir_dot_normal: Scalar, t: Scalar) -> bool {
        dir_dot_normal.spec_abs().spec_gt(Scalar::spec_zero()) && t.spec_gt(epsilon())
    }

    /// The plane through `point` with the given normal, which must have
    /// passed the length test.
    pub fn new(point: Vec3, normal: Vec3) -> (r: Plane)
        requires
            normal.is_normalized(),
        ensures
            r.point() == point,
            r.normal() == normal,
    {
        Plane { point, normal }
    }

    /// The point that the plane was made with.
    #[verifier::when_used_as_spec(spec_point)]
    pub fn point(&self) -> (r: Vec3)
        ensures
            r == self.spec_point(),
    {
        self.point
    }

    /// The normal of the plane: always a vector of unit length.
    #[verifier::when_used_as_spec(spec_normal)]
    pub fn normal(&self) -> (r: Vec3)
        ensures
            r == self.spec_normal(),
            r.is_normalized(),
    {
        proof {
            use_type_invariant(self);
        }
        self.normal
    }

    /// Where a ray meets the plane, if it does.
    ///
    /// `dir_dot_normal` is the product of the ray's direction with the
    /// normal, `t` the ray parameter computed with it, and `point` the point
    /// of the ray at `t`. A ray along the plane, whose product is zero of
    /// either sign, meets nothing, whatever `t` is. The normal of a hit is
    /// the plane's own, on whichever side the ray comes from.
    pub fn intersection(&self, dir_dot_normal: Scalar, t: Scalar, point: Vec3) -> (r: Option<
        Intersection,
    >)
        ensures
            r == (if Plane::meets(dir_dot_normal, t) {
                Some(Intersection { point, normal: self.normal(), t })
            } else {
                None
            }),
            dir_dot_normal.same_number(Scalar::spec_zero()) ==> r is None,
            r matches Some(hit) ==> hit.t.spec_gt(epsilon()) && hit.normal.is_normalized(),
    {
        if dir_dot_normal.abs() > Scalar::zero() && t > epsilon() {
            Some(Intersection { point, normal: self.normal(), t })
        } else {
            None
        }
    }
}

/// A shape in space: something a ray can meet.
#[derive(Clone, Copy, Debug)]
pub enum Shape {
    Sphere(Sphere),
    Plane(Plane),
}

impl From<Sphere> for Shape {
    fn from(sphere: Sphere) -> (r: Shape) {
        Shape::Sphere(sphere)
    }
}

impl FromSpecImpl<Sphere> for Shape {
    open spec fn obeys_from_spec() -> bool {
        true
    }

    open spec fn from_spec(sphere: Sphere) -> Shape {
        Shape::Sphere(sphere)
    }
}

impl From<Plane> for Shape {
    fn from(plane: Plane) -> (r: Shape) {
        Shape::Plane(plane)
    }
}

impl FromSpecImpl<Plane> for Shape {
    open spec fn obeys_from_spec() -> bool {
        true
    }

    open spec fn from_spec(plane: Plane) -> Shape {
        Shape::Plane(plane)
    }
}

/// The choice among the roots of a sphere does not depend on the order in
/// which they are given.
pub proof fn lemma_hit_parameter_symmetric(discriminant: Scalar, t1: Scalar, t2: Scalar)
    ensures
        Sphere::spec_hit_parameter(discriminant, t1, t2) == Sphere::spec_hit_parameter(
            discriminant,
            t2,
            t1,
        ),
{
}

/// Where the two roots are one number, as for a ray that touches the
/// sphere, there is one hit at most, and it is that number.
pub proof fn lemma_touching_ray_has_one_root(discriminant: Scalar, t1: Scalar, t2: Scalar)
    requires
        t1.same_number(t2),
    ensures
        Sphere::spec_hit_parameter(discriminant, t1, t2) matches Some(t) ==> t == t1 && t == t2,
{
}

/// A ray that starts outside a sphere and meets it ahead has two valid
/// roots, and its hit is the lesser of them, the near side of the sphere,
/// at a distance above zero.
pub proof fn lemma_sphere_ahead_is_hit_on_its_near_side(
    discriminant: Scalar,
    t1: Scalar,
    t2: Scalar,
)
    requires
        !discriminant.spec_lt(Scalar::spec_zero()),
        Sphere::valid_root(t1),
        Sphere::valid_root(t2),
    ensures
        Sphere::spec_hit_parameter(discriminant, t1, t2) matches Some(t) && {
            &&& t == t1 || t == t2
            &&& t.spec_le(t1)
            &&& t.spec_le(t2)
            &&& t.spec_gt(Scalar::spec_zero())
        },
{
}

/// A valid root is a positive number: it is no NaN and lies above zero.
pub proof fn lemma_valid_root_is_positive(t: Scalar)
    requires
        Sphere::valid_root(t),
    ensures
        !t.spec_is_nan(),
        !t.negative(),
        t.spec_gt(Scalar::spec_zero()),
{
}

} // verus!
