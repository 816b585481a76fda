//! The camera, the scene, and the choices of the integrator.
//!
//! A path is traced one ray at a time. For each ray the caller intersects it
//! with every object and every light of the scene and hands the hits to
//! `Renderer::trace_ray`, which says how the path goes on: it ends with some
//! radiance, or it leaves an object along a scattered ray, with a bounce
//! budget that is one less.
use crate::light::{Light, LightRay};
use crate::object::Object;
use crate::scalar::Scalar;
use crate::shape::Intersection;
use crate::vector::Vec3;
use vstd::prelude::*;

verus! {

/// The bit pattern of `2π`, the bound of a camera's field of view.
pub const TWO_PI: u32 = 0x40C9_0FDB;

/// The four corners of the rectangle through which a camera looks.
#[derive(Clone, Copy, Debug)]
pub struct ViewPlane {
    pub top_left: Vec3,
    pub top_right: Vec3,
    pub bottom_left: Vec3,
    pub bottom_right: Vec3,
}

/// A camera in space: where it stands, the direction of unit length in
/// which it looks, its field of view in radians, within `[0, 2π)`, and the
/// ratio of the view plane's width to its height.
#[derive(Clone, Copy, Debug)]
pub struct Camera {
    position: Vec3,
    direction: Vec3,
    fov: Scalar,
    aspect_ratio: Scalar,
}

impl Camera {
    #[verifier::type_invariant]
    spec fn well_formed(self) -> bool {
        Camera::spec_admits(self.direction, self.fov)
    }

    /// Whether a camera can look along `direction` with the field of view
    /// `fov`: the direction has passed the length test, and the field of view
    /// is a number in `[0, 2π)`.
    pub open spec fn spec_admits(direction: Vec3, fov: Scalar) -> bool {
        &&& direction.is_normalized()
        &&& fov.spec_ge(Scalar::spec_zero())
        &&& fov.spec_lt(Scalar { bits: TWO_PI })
    }

    /// Where the camera stands.
    pub closed spec fn spec_position(&self) -> Vec3 {
        self.position
    }

    /// The direction in which the camera looks.
    pub closed spec fn spec_direction(&self) -> Vec3 {
        self.direction
    }

    /// The field of view, in radians.
    pub closed spec fn spec_fov(&self) -> Scalar {
        self.fov
    }

    /// The ratio of the view plane's width to its height.
    pub closed spec fn spec_aspect_ratio(&self) -> Scalar {
        self.aspect_ratio
    }

    /// The local x axis of a camera, from the normalized cross product of
    /// the world's up axis with the camera's direction: that vector, or the
    /// world's x axis where the camera looks straight up or down and there is
    /// none.
    pub open spec fn spec_x_axis(up_cross_direction: Option<Vec3>) -> Vec3 {
        match up_cross_direction {
            Some(axis) => axis,
            None => Vec3::spec_unit_x(),
        }
    }

    /// The local y axis of a camera, from the normalized cross product of
    /// the camera's direction with its local x axis: that vector, or the
    /// world's y axis where there is none.
    pub open spec fn spec_y_axis(direction_cross_x: Option<Vec3>) -> Vec3 {
        match direction_cross_x {
            Some(axis) => axis,
            None => Vec3::spec_unit_y(),
        }
    }

    /// Whether a camera can look along `direction` with the field of view
    /// `fov`.
    #[verifier::when_used_as_spec(spec_admits)]
    pub fn admits(direction: Vec3, fov: Scalar) -> (ok: bool)
        ensures
            ok == Camera::spec_admits(direction, fov),
    {
        direction.is_normalized() && fov >= Scalar::zero() && fov < (Scalar { bits: TWO_PI })
    }

    /// The camera with the given settings.
    pub fn new(position: Vec3, direction: Vec3, fov: Scalar, aspect_ratio: Scalar) -> (r: Camera)
        requires
            Camera::spec_admits(direction, fov),
        ensures
            r.position() == position,
            r.direction() == direction,
            r.fov() == fov,
            r.aspect_ratio() == aspect_ratio,
    {
        Camera { position, direction, fov, aspect_ratio }
    }

    /// Where the camera stands.
    #[verifier::when_used_as_spec(spec_position)]
    pub fn position(&self) -> (r: Vec3)
        ensures
            r == self.spec_position(),
    {
        self.position
    }

    /// The direction in which the camera looks: always a vector of unit
    /// length.
    #[verifier::when_used_as_spec(spec_direction)]
    pub fn direction(&self) -> (r: Vec3)
        ensures
            r == self.spec_direction(),
            r.is_normalized(),
    {
        proof {
            use_type_invariant(self);
        }
        self.direction
    }

    /// The field of view: always a number in `[0, 2π)`.
    #[verifier::when_used_as_spec(spec_fov)]
    pub fn fov(&self) -> (r: Scalar)
        ensures
            r == self.spec_fov(),
            r.spec_ge(Scalar::spec_zero()),
            r.spec_lt(Scalar { bits: TWO_PI }),
    {
        proof {
            use_type_invariant(self);
        }
        self.fov
    }

    /// The ratio of the view plane's width to its height.
    #[verifier::when_used_as_spec(spec_aspect_ratio)]
    pub fn aspect_ratio(&self) -> (r: Scalar)
        ensures
            r == self.spec_aspect_ratio(),
    {
        self.aspect_ratio
    }

    /// The local x axis of a camera, from the normalized cross product of
    /// the world's up axis with the camera's direction, if there is one.
    #[verifier::when_used_as_spec(spec_x_axis)]
    pub fn x_axis(up_cross_direction: Option<Vec3>) -> (r: Vec3)
        ensures
            r == Camera::spec_x_axis(up_cross_direction),
    {
        match up_cross_direction {
            Some(axis) => axis,
            None => Vec3::unit_x(),
        }
    }

    /// The local y axis of a camera, from the normalized cross product of
    /// the camera's direction with its local x axis, if there is one.
    #[verifier::when_used_as_spec(spec_y_axis)]
    pub fn y_axis(direction_cross_x: Option<Vec3>) -> (r: Vec3)
        ensures
            r == Camera::spec_y_axis(direction_cross_x),
    {
        match direction_cross_x {
            Some(axis) => axis,
            None => Vec3::unit_y(),
        }
    }

    /// The local z axis of the camera: its direction.
    pub fn z_axis(&self) -> (r: Vec3)
        ensures
            r == self.spec_direction(),
            r.is_normalized(),
    {
        self.direction()
    }
}

/// All that one frame shows.
pub struct Scene {
    pub camera: Camera,
    pub objects: Vec<Object>,
    pub lights: Vec<Light>,
}

/// How a path goes on after one ray.
#[derive(Clone, Copy, Debug, PartialEq)]
pub enum Trace {
    /// The path ends, and this is the radiance that arrives along the ray.
    Radiance(LightRay),
    /// The ray hit the object of index `object` at `hit`. The radiance along
    /// the ray is what arrives along the ray that the object's material
    /// scatters at the hit, traced with the budget `depth`, its color
    /// multiplied by the color of the material.
    Scatter { object: usize, hit: Intersection, depth: u32 },
}

/// The key by which hits are ordered: that of the ray parameter.
pub open spec fn hit_key(hit: Option<Intersection>) -> u32 {
    hit.unwrap().t.spec_order_key()
}

/// Whether the hit of index `i` is the nearest: no hit has a lesser key, and
/// every hit before it has a greater one.
pub open spec fn is_nearest(hits: Seq<Option<Intersection>>, i: int) -> bool {
    &&& 0 <= i < hits.len()
    &&& hits[i] is Some
    &&& forall|j: int| 0 <= j < hits.len() && hits[j] is Some ==> hit_key(hits[i]) <= hit_key(#[trigger] hits[j])
    &&& forall|j: int| 0 <= j < i && hits[j] is Some ==> hit_key(hits[i]) < hit_key(#[trigger] hits[j])
}

/// The index of the nearest hit, if there is a hit at all.
pub open spec fn spec_nearest(hits: Seq<Option<Intersection>>) -> Option<int> {
    if exists|i: int| is_nearest(hits, i) {
        Some(choose|i: int| is_nearest(hits, i))
    } else {
        None
    }
}

/// At most one hit is the nearest.
pub proof fn lemma_nearest_unique(hits: Seq<Option<Intersection>>, i: int, j: int)
    requires
        is_nearest(hits, i),
        is_nearest(hits, j),
    ensures
        i == j,
{
}

/// The index of the nearest hit is that of the one hit that is the nearest,
/// and there is none exactly if nothing is hit.
pub proof fn lemma_nearest_is_the_nearest(hits: Seq<Option<Intersection>>)
    ensures
        spec_nearest(hits) matches Some(i) ==> is_nearest(hits, i),
        forall|i: int| is_nearest(hits, i) ==> spec_nearest(hits) == Some(i),
        spec_nearest(hits) is None <==> forall|j: int| 0 <= j < hits.len() ==> hits[j] is None,
{
    assert forall|i: int| is_nearest(hits, i) implies spec_nearest(hits) == Some(i) by {
        lemma_nearest_unique(hits, i, choose|k: int| is_nearest(hits, k));
    }
    if forall|j: int| 0 <= j < hits.len() ==> hits[j] is None {
        assert forall|k: int| !is_nearest(hits, k) by {}
    } else {
        let j = choose|j: int| 0 <= j < hits.len() && hits[j] is Some;
        assert(0 <= j < hits.len() && hits[j] is Some);
        lemma_some_hit_is_nearest(hits, hits.len() as int);
        assert(hits.take(hits.len() as int) =~= hits);
    }
}

/// Among the first `n` hits, if there is one at all, one is nearer than
/// those before it and as near as any of them.
proof fn lemma_some_hit_is_nearest(hits: Seq<Option<Intersection>>, n: int)
    requires
        0 <= n <= hits.len(),
    ensures
        (exists|j: int| 0 <= j < n && hits[j] is Some) ==> exists|i: int| is_nearest(hits.take(n), i),
    decreases n,
{
    if n > 0 {
        lemma_some_hit_is_nearest(hits, n - 1);
        let before = hits.take(n - 1);
        let upto = hits.take(n);
        assert forall|j: int| 0 <= j < n - 1 implies before[j] == upto[j] by {}
        if exists|i: int| is_nearest(before, i) {
            let b = choose|i: int| is_nearest(before, i);
            if hits[n - 1] is Some && hit_key(hits[n - 1]) < hit_key(before[b]) {
                assert(is_nearest(upto, n - 1));
            } else {
                assert(is_nearest(upto, b));
            }
        } else if hits[n - 1] is Some {
            assert forall|j: int| 0 <= j < n - 1 implies hits[j] is None by {
                if hits[j] is Some {
                    assert(exists|k: int| 0 <= k < n - 1 && hits[k] is Some);
                }
            }
            assert(is_nearest(upto, n - 1));
        }
    }
}

/// Where every hit has a ray parameter that is a number with no sign bit,
/// the nearest hit is one of least distance, and the first of those.
pub proof fn lemma_nearest_is_least(hits: Seq<Option<Intersection>>, i: int)
    requires
        is_nearest(hits, i),
        forall|j: int|
            0 <= j < hits.len() && hits[j] is Some ==> {
                let t = (#[trigger] hits[j]).unwrap().t;
                !t.spec_is_nan() && !t.negative()
            },
    ensures
        forall|j: int|
            0 <= j < hits.len() && hits[j] is Some ==> hits[i].unwrap().t.spec_le(
                (#[trigger] hits[j]).unwrap().t,
            ),
        forall|j: int|
            0 <= j < i && hits[j] is Some ==> hits[i].unwrap().t.spec_lt(
                (#[trigger] hits[j]).unwrap().t,
            ),
{
    assert forall|j: int| 0 <= j < hits.len() && hits[j] is Some implies hits[i].unwrap().t.spec_le(
        (#[trigger] hits[j]).unwrap().t,
    ) by {
        crate::scalar::lemma_order_key_of_positive(hits[i].unwrap().t, hits[j].unwrap().t);
    }
    assert forall|j: int| 0 <= j < i && hits[j] is Some implies hits[i].unwrap().t.spec_lt(
        (#[trigger] hits[j]).unwrap().t,
    ) by {
        crate::scalar::lemma_order_key_of_positive(hits[i].unwrap().t, hits[j].unwrap().t);
    }
}

/// Finds the nearest of the hits of one ray: the first among those whose ray
/// parameter has the least key.
pub fn nearest(hits: &Vec<Option<Intersection>>) -> (r: Option<usize>)
    ensures
        r matches Some(i) ==> is_nearest(hits@, i as int),
        r is None ==> forall|j: int| 0 <= j < hits.len() ==> hits[j] is None,
        r is Some <==> exists|j: int| 0 <= j < hits.len() && hits[j] is Some,
        match r {
            Some(i) => spec_nearest(hits@) == Some(i as int),
            None => spec_nearest(hits@) is None,
        },
{
    let mut best: Option<usize> = None;
    let mut best_key: u32 = 0;
    let mut i: usize = 0;
    while i < hits.len()
        invariant
            i <= hits.len(),
            best is None ==> forall|j: int| 0 <= j < i ==> hits[j] is None,
            best matches Some(b) ==> {
                &&& b < i
                &&& hits[b as int] is Some
                &&& best_key == hit_key(hits[b as int])
                &&& forall|j: int| 0 <= j < i && hits[j] is Some ==> best_key <= hit_key(#[trigger] hits[j])
                &&& forall|j: int| 0 <= j < b && hits[j] is Some ==> best_key < hit_key(#[trigger] hits[j])
            },
        decreases hits.len() - i,
    {
        match hits[i] {
            Some(hit) => {
                let key: u32 = hit.t.order_key();
                if best.is_none() || key < best_key {
                    best = Some(i);
                    best_key = key;
                }
            },
            None => {},
        }
        i += 1;
    }
    proof {
        match best {
            Some(b) => {
                assert(is_nearest(hits@, b as int));
                lemma_nearest_unique(hits@, b as int, choose|k: int| is_nearest(hits@, k));
            },
            None => {
                assert forall|k: int| !is_nearest(hits@, k) by {}
            },
        }
    }
    best
}

/// The settings of a render.
#[derive(Clone, Copy, Debug)]
pub struct Renderer {
    /// How many paths are traced through each pixel.
    pub sample_count: u32,
    /// How many times a path may leave an object.
    pub indirect_count: u32,
    /// The radiance that is shown as full white.
    pub max_value: Scalar,
    /// The radiance of a path that hits nothing or has used up its budget.
    pub ambient_light: LightRay,
}

impl Renderer {
    /// How a path goes on after a ray that may still make `depth` steps, from
    /// the hits of that ray on the objects and on the lights of the scene,
    /// each list in the order of the scene.
    ///
    /// With no step left the path ends with the ambient light, and so it does
    /// where nothing is hit. Else the nearest light and the nearest object
    /// are compared: the light wins if it alone is hit or if it is strictly
    /// nearer, and the path ends with what it emits; otherwise the path
    /// leaves the object with one step less.
    pub open spec fn spec_trace_ray(
        &self,
        scene: &Scene,
        depth: u32,
        object_hits: Seq<Option<Intersection>>,
        light_hits: Seq<Option<Intersection>>,
    ) -> Trace {
        if depth == 0 {
            Trace::Radiance(self.ambient_light)
        } else {
            match (spec_nearest(light_hits), spec_nearest(object_hits)) {
                (None, None) => Trace::Radiance(self.ambient_light),
                (None, Some(o)) => Trace::Scatter {
                    object: o as usize,
                    hit: object_hits[o].unwrap(),
                    depth: (depth - 1) as u32,
                },
                (Some(l), None) => Trace::Radiance(scene.lights[l].spec_light_ray()),
                (Some(l), Some(o)) => if light_hits[l].unwrap().t.spec_lt(object_hits[o].unwrap().t) {
                    Trace::Radiance(scene.lights[l].spec_light_ray())
                } else {
                    Trace::Scatter {
                        object: o as usize,
                        hit: object_hits[o].unwrap(),
                        depth: (depth - 1) as u32,
                    }
                },
            }
        }
    }

    /// The budget of a path that starts at the camera: one step to reach a
    /// surface, and one for each time it may leave an object.
    pub open spec fn spec_bounce_budget(&self) -> int {
        self.indirect_count + 1
    }

    /// What is shown of a channel, from its radiance divided by `max_value`:
    /// one for what lies above one, the quotient itself where it lies in
    /// `[0, 1]`, and zero for the rest, which is what lies below zero and
    /// what is no number, as the quotient of a pixel without samples.
    pub open spec fn spec_tone_map(quotient: Scalar) -> Scalar {
        if quotient.spec_gt(Scalar::spec_one()) {
            Scalar::spec_one()
        } else if quotient.spec_ge(Scalar::spec_zero()) {
            quotient
        } else {
            Scalar::spec_zero()
        }
    }

    /// Says how a path goes on after one ray. With a budget left, there must
    /// be one entry in `object_hits` for each object of the scene and one in
    /// `light_hits` for each light.
    pub fn trace_ray(
        &self,
        scene: &Scene,
        depth: u32,
        object_hits: &Vec<Option<Intersection>>,
        light_hits: &Vec<Option<Intersection>>,
    ) -> (r: Trace)
        requires
            depth > 0 ==> object_hits.len() == scene.objects.len(),
            depth > 0 ==> light_hits.len() == scene.lights.len(),
        ensures
            r == self.spec_trace_ray(scene, depth, object_hits@, light_hits@),
            depth == 0 ==> r == Trace::Radiance(self.ambient_light),
            r matches Trace::Scatter { object, hit, depth: left } ==> {
                &&& object < scene.objects.len()
                &&& is_nearest(object_hits@, object as int)
                &&& object_hits[object as int] == Some(hit)
                &&& left + 1 == depth
            },
    {
        if depth == 0 {
            return Trace::Radiance(self.ambient_light);
        }
        let closest_light = nearest(light_hits);
        let closest_object = nearest(object_hits);
        match (closest_light, closest_object) {
            (None, None) => Trace::Radiance(self.ambient_light),
            (None, Some(o)) => Renderer::leave(o, object_hits, depth),
            (Some(l), None) => Trace::Radiance(scene.lights[l].light_ray()),
            (Some(l), Some(o)) => {
                let light_hit = light_hits[l].unwrap();
                let object_hit = object_hits[o].unwrap();
                if light_hit.t < object_hit.t {
                    Trace::Radiance(scene.lights[l].light_ray())
                } else {
                    Renderer::leave(o, object_hits, depth)
                }
            },
        }
    }

    /// The step by which a path leaves the object of index `object`.
    fn leave(object: usize, object_hits: &Vec<Option<Intersection>>, depth: u32) -> (r: Trace)
        requires
            depth > 0,
            object < object_hits.len(),
            object_hits[object as int] is Some,
        ensures
            r == (Trace::Scatter {
                object,
                hit: object_hits[object as int].unwrap(),
                depth: (depth - 1) as u32,
            }),
    {
        Trace::Scatter { object, hit: object_hits[object].unwrap(), depth: depth - 1 }
    }

    /// The budget with which the paths of a render start, where it fits the
    /// machine's integers.
    pub fn bounce_budget(&self) -> (r: u32)
        requires
            self.indirect_count < u32::MAX,
        ensures
            r == self.spec_bounce_budget(),
    {
        self.indirect_count + 1
    }

    /// Brings a channel into the range that can be shown: whatever the
    /// quotient is, what is shown of it is a number in `[0, 1]`.
    #[verifier::when_used_as_spec(spec_tone_map)]
    pub fn tone_map(quotient: Scalar) -> (r: Scalar)
        ensures
            r == Renderer::spec_tone_map(quotient),
            r.in_unit_interval(),
            quotient.in_unit_interval() ==> r == quotient,
    {
        if quotient > Scalar::one() {
            Scalar::one()
        } else if quotient >= Scalar::zero() {
            quotient
        } else {
            Scalar::zero()
        }
    }
}

/// A path that has used up its budget ends with the ambient light, whatever
/// the scene holds and whatever the ray hits.
pub proof fn lemma_exhausted_path_is_ambient(
    renderer: Renderer,
    scene: &Scene,
    object_hits: Seq<Option<Intersection>>,
    light_hits: Seq<Option<Intersection>>,
)
    ensures
        renderer.spec_trace_ray(scene, 0, object_hits, light_hits) == Trace::Radiance(
            renderer.ambient_light,
        ),
{
}

/// A ray that hits nothing ends the path with the ambient light.
pub proof fn lemma_miss_is_ambient(
    renderer: Renderer,
    scene: &Scene,
    depth: u32,
    object_hits: Seq<Option<Intersection>>,
    light_hits: Seq<Option<Intersection>>,
)
    requires
        forall|j: int| 0 <= j < object_hits.len() ==> object_hits[j] is None,
        forall|j: int| 0 <= j < light_hits.len() ==> light_hits[j] is None,
    ensures
        renderer.spec_trace_ray(scene, depth, object_hits, light_hits) == Trace::Radiance(
            renderer.ambient_light,
        ),
{
}

/// With budget left, a light and an object both hit, the nearer of the two
/// wins, and the object where they are equally near. What lies behind the
/// winner plays no part.
pub proof fn lemma_nearer_wins(
    renderer: Renderer,
    scene: &Scene,
    depth: u32,
    object_hits: Seq<Option<Intersection>>,
    light_hits: Seq<Option<Intersection>>,
    object: int,
    light: int,
)
    requires
        depth > 0,
        is_nearest(object_hits, object),
        is_nearest(light_hits, light),
    ensures
        renderer.spec_trace_ray(scene, depth, object_hits, light_hits) == (if light_hits[light].unwrap().t.spec_lt(
            object_hits[object].unwrap().t,
        ) {
            Trace::Radiance(scene.lights[light].spec_light_ray())
        } else {
            Trace::Scatter {
                object: object as usize,
                hit: object_hits[object].unwrap(),
                depth: (depth - 1) as u32,
            }
        }),
{
    lemma_nearest_is_the_nearest(object_hits);
    lemma_nearest_is_the_nearest(light_hits);
}

/// A path never goes on with the budget it came with: each step that leaves
/// an object has one less, so a path that starts with the budget `n` makes
/// at most `n` steps.
pub proof fn lemma_budget_decreases(
    renderer: Renderer,
    scene: &Scene,
    depth: u32,
    object_hits: Seq<Option<Intersection>>,
    light_hits: Seq<Option<Intersection>>,
)
    ensures
        renderer.spec_trace_ray(scene, depth, object_hits, light_hits) matches Trace::Scatter {
            depth: left,
            ..
        } ==> left < depth,
{
}

/// What is shown of a channel lies in `[0, 1]`, whatever its quotient is:
/// a number or none, as where a pixel has no samples or the exposure is
/// zero.
pub proof fn lemma_tone_map_in_range(quotient: Scalar)
    ensures
        Renderer::spec_tone_map(quotient).in_unit_interval(),
        !Renderer::spec_tone_map(quotient).spec_is_nan(),
{
}

/// Of two channels, the one with the lesser quotient is not shown brighter;
/// and a channel without radiance, whose quotient is zero, is shown as zero.
pub proof fn lemma_tone_map_keeps_the_order(darker: Scalar, brighter: Scalar)
    requires
        darker.spec_le(brighter),
    ensures
        Renderer::spec_tone_map(darker).spec_le(Renderer::spec_tone_map(brighter)),
        darker.same_number(Scalar::spec_zero()) ==> Renderer::spec_tone_map(darker).same_number(
            Scalar::spec_zero(),
        ),
{
}

/// Tone mapping a second time changes nothing.
pub proof fn lemma_tone_map_idempotent(quotient: Scalar)
    ensures
        Renderer::spec_tone_map(Renderer::spec_tone_map(quotient)) == Renderer::spec_tone_map(
            quotient,
        ),
{
}

} // verus!
