use glam::Vec3A;
use pathtracer::common::{Color, Ray};
use pathtracer::light::{Light, LightRay};
use pathtracer::material::{Bounce, Material, Simple};
use pathtracer::object::Object;
use pathtracer::render::{Camera, Renderer, Scene, Trace, ViewPlane};
use pathtracer::scalar::Scalar;
use pathtracer::shape::{Intersection, Plane, Shape, Sphere};
use pathtracer::vector::Vec3;
use rand::rngs::SmallRng;
use rand::{Rng, SeedableRng};
use std::sync::{Arc, Mutex};

// The arithmetic of a render, which the library leaves to its caller.

fn s(x: f32) -> Scalar {
    Scalar::from_bits(x.to_bits())
}

fn f(x: Scalar) -> f32 {
    f32::from_bits(x.to_bits())
}

fn point(g: Vec3A) -> Vec3 {
    Vec3::new(s(g.x), s(g.y), s(g.z))
}

fn direction(g: Vec3A) -> Vec3 {
    if g.is_normalized() {
        Vec3::new_unit(s(g.x), s(g.y), s(g.z))
    } else {
        point(g)
    }
}

fn g(v: Vec3) -> Vec3A {
    Vec3A::new(f(v.x), f(v.y), f(v.z))
}

fn color(r: f32, g: f32, b: f32) -> Color {
    assert!(Color::admits(s(r), s(g), s(b)));
    Color::new(s(r), s(g), s(b))
}

fn ray(origin: Vec3A, along: Vec3A) -> Ray {
    let along = direction(along);
    assert!(along.is_normalized());
    Ray::new(point(origin), along)
}

fn sphere_hit(sphere: &Sphere, ray: Ray) -> Option<Intersection> {
    let center = g(sphere.center);
    let p_minus_c = g(ray.point()) - center;
    let b_halved = p_minus_c.dot(g(ray.direction()));
    let c = p_minus_c.length_squared() - f(sphere.radius) * f(sphere.radius);
    let discriminant = b_halved * b_halved - c;
    let root = discriminant.sqrt();
    let t = Sphere::hit_parameter(s(discriminant), s(-b_halved + root), s(-b_halved - root))?;
    let at = g(ray.point()) + g(ray.direction()) * f(t);
    let outward = (at - center).try_normalize().map(direction);
    Some(Intersection { point: point(at), normal: Sphere::normal(outward), t })
}

fn plane_hit(plane: &Plane, ray: Ray) -> Option<Intersection> {
    let normal = g(plane.normal());
    let dir_dot_normal = g(ray.direction()).dot(normal);
    let t = (g(plane.point()) - g(ray.point())).dot(normal) / dir_dot_normal;
    let at = g(ray.point()) + g(ray.direction()) * t;
    plane.intersection(s(dir_dot_normal), s(t), point(at))
}

fn intersection(shape: &Shape, ray: Ray) -> Option<Intersection> {
    match shape {
        Shape::Sphere(sphere) => sphere_hit(sphere, ray),
        Shape::Plane(plane) => plane_hit(plane, ray),
    }
}

/// A simple material that draws from a generator of its own.
struct Surface {
    simple: Simple,
    rng: Mutex<SmallRng>,
}

impl Surface {
    fn new(color: Color, diffuse: f32, fuzzyness: f32, seed: u64) -> Arc<Surface> {
        Arc::new(Surface {
            simple: Simple { color, diffuse: s(diffuse), fuzzyness: s(fuzzyness) },
            rng: Mutex::new(SmallRng::seed_from_u64(seed)),
        })
    }
}

fn random_in_unit_sphere(rng: &mut SmallRng) -> Vec3A {
    loop {
        let sample = Vec3A::new(
            rng.gen_range(-1.0..1.0),
            rng.gen_range(-1.0..1.0),
            rng.gen_range(-1.0..1.0),
        );
        if Simple::keeps_sample(s(sample.length_squared())) {
            return sample.normalize();
        }
    }
}

impl Material for Surface {
    fn scatter(&self, incoming: Ray, at: Vec3, normal: Vec3) -> Ray {
        let mut rng = self.rng.lock().unwrap();
        let u: f32 = rng.gen_range(0.0..1.0);
        let along = match self.simple.bounce(s(u)) {
            Bounce::Diffuse => {
                let center = g(at) + g(normal);
                let random = random_in_unit_sphere(&mut rng);
                ((center + random) - g(at)).normalize()
            }
            Bounce::Specular => {
                let factor = 2.0 * g(incoming.direction()).dot(g(normal));
                let mirrored = g(incoming.direction()) - factor * g(normal);
                let fuzz = f(self.simple.fuzzyness) * random_in_unit_sphere(&mut rng);
                (mirrored + fuzz).normalize()
            }
        };
        ray(g(at), along)
    }

    fn color(&self, at: Vec3, normal: Vec3) -> Color {
        self.simple.color(at, normal)
    }
}

fn multiply(a: Color, b: Color) -> Color {
    let product = g(a.to_vec3()) * g(b.to_vec3());
    color(product.x, product.y, product.z)
}

fn trace(renderer: &Renderer, scene: &Scene, along: Ray, depth: u32) -> LightRay {
    let (object_hits, light_hits) = if depth == 0 {
        (Vec::new(), Vec::new())
    } else {
        (
            scene.objects.iter().map(|o| intersection(&o.shape, along)).collect(),
            scene.lights.iter().map(|l| intersection(&l.shape, along)).collect(),
        )
    };
    match renderer.trace_ray(scene, depth, &object_hits, &light_hits) {
        Trace::Radiance(radiance) => radiance,
        Trace::Scatter { object, hit, depth } => {
            let material = &scene.objects[object].material;
            let scattered = material.scatter(along, hit.point, hit.normal);
            let arriving = trace(renderer, scene, scattered, depth);
            let surface = material.color(hit.point, hit.normal);
            arriving.tinted(multiply(arriving.color, surface))
        }
    }
}

fn view_plane(camera: &Camera) -> ViewPlane {
    let forward = g(camera.direction());
    let x_axis = g(Camera::x_axis(Vec3A::Y.cross(forward).try_normalize().map(direction)));
    let y_axis = g(Camera::y_axis(forward.cross(x_axis).try_normalize().map(direction)));
    let center = g(camera.position()) + forward;
    let half_height = (f(camera.fov()) / 2.0).tan();
    let half_width = half_height * f(camera.aspect_ratio());
    let top = center + y_axis * half_height;
    let bottom = center - y_axis * half_height;
    ViewPlane {
        top_left: point(top - x_axis * half_width),
        top_right: point(top + x_axis * half_width),
        bottom_left: point(bottom - x_axis * half_width),
        bottom_right: point(bottom + x_axis * half_width),
    }
}

/// The image of a scene: `width * height` pixels of three channels, row by row.
fn render(renderer: &Renderer, scene: &Scene, width: u32, height: u32) -> Vec<[f32; 3]> {
    let plane = view_plane(&scene.camera);
    let budget = renderer.bounce_budget();
    let mut image = Vec::new();
    for y in 0..height {
        let y_t = (y as f32) / (height as f32);
        for x in 0..width {
            let x_t = (x as f32) / (width as f32);
            let top = g(plane.top_left).lerp(g(plane.top_right), x_t);
            let bottom = g(plane.bottom_left).lerp(g(plane.bottom_right), x_t);
            let through = top.lerp(bottom, y_t);
            let primary = ray(through, (through - g(scene.camera.position())).normalize());
            let mut channels = [0f32; 3];
            for _ in 0..renderer.sample_count {
                let radiance = trace(renderer, scene, primary, budget);
                let sample = g(radiance.color.to_vec3()) * f(radiance.intensity);
                channels[0] += sample.x;
                channels[1] += sample.y;
                channels[2] += sample.z;
            }
            for channel in channels.iter_mut() {
                *channel /= renderer.sample_count as f32;
            }
            image.push(channels);
        }
    }
    for pixel in image.iter_mut() {
        for channel in pixel.iter_mut() {
            *channel = f(Renderer::tone_map(s(*channel / f(renderer.max_value))));
        }
    }
    image
}

fn camera() -> Camera {
    let (position, forward) = (Vec3A::new(0.0, 0.0, -5.0), Vec3A::Z);
    let fov = 75f32.to_radians();
    assert!(Camera::admits(direction(forward), s(fov)));
    Camera::new(point(position), direction(forward), s(fov), s(1.0))
}

fn light(center: Vec3A, radius: f32, color: Color, intensity: f32) -> Light {
    assert!(Light::admits(s(intensity)));
    Light::new(Shape::from(Sphere { center: point(center), radius: s(radius) }), color, s(intensity))
}

const WIDTH: u32 = 8;
const HEIGHT: u32 = 8;

fn pixel(image: &[[f32; 3]], x: u32, y: u32) -> [f32; 3] {
    image[(y * WIDTH + x) as usize]
}

#[test]
fn the_view_plane_of_a_camera_stands_one_unit_ahead() {
    let plane = view_plane(&camera());
    let half = (75f32.to_radians() / 2.0).tan();
    assert!((g(plane.top_left) - Vec3A::new(-half, half, -4.0)).length() < 1e-6);
    assert!((g(plane.top_right) - Vec3A::new(half, half, -4.0)).length() < 1e-6);
    assert!((g(plane.bottom_left) - Vec3A::new(-half, -half, -4.0)).length() < 1e-6);
    assert!((g(plane.bottom_right) - Vec3A::new(half, -half, -4.0)).length() < 1e-6);
}

#[test]
fn a_lit_sphere_shows_in_the_middle_and_not_in_the_corners() {
    let white = Surface::new(color(1.0, 1.0, 1.0), 1.0, 0.0, 1);
    let scene = Scene {
        camera: camera(),
        objects: vec![Object {
            shape: Shape::from(Sphere { center: point(Vec3A::ZERO), radius: s(1.0) }),
            material: white,
        }],
        // Behind the camera, where no ray from the camera goes.
        lights: vec![light(Vec3A::new(0.0, 0.0, -20.0), 5.0, color(1.0, 1.0, 1.0), 2.0)],
    };
    let renderer = Renderer {
        sample_count: 256,
        indirect_count: 4,
        max_value: s(4.0),
        ambient_light: LightRay { color: color(0.0, 0.0, 0.0), intensity: s(0.0) },
    };
    let image = render(&renderer, &scene, WIDTH, HEIGHT);
    assert_eq!(image.len(), (WIDTH * HEIGHT) as usize);

    let middle = pixel(&image, WIDTH / 2, HEIGHT / 2);
    for channel in middle {
        assert!(channel > 0.0, "the middle is dark: {middle:?}");
        assert!(channel < 1.0, "the middle is saturated: {middle:?}");
    }
    // A white surface under a white light is grey.
    assert_eq!(middle[0], middle[1]);
    assert_eq!(middle[1], middle[2]);

    for (x, y) in [(0, 0), (WIDTH - 1, 0), (0, HEIGHT - 1), (WIDTH - 1, HEIGHT - 1)] {
        assert_eq!(pixel(&image, x, y), [0.0, 0.0, 0.0], "corner {x} {y}");
    }
    for shown in image.iter().flatten() {
        assert!((0.0..=1.0).contains(shown));
    }
}

#[test]
fn a_light_in_front_of_a_wall_shows_as_itself() {
    let wall_color = [0.5, 0.25, 0.125];
    let wall = Surface::new(color(wall_color[0], wall_color[1], wall_color[2]), 1.0, 0.0, 2);
    let scene = Scene {
        camera: camera(),
        objects: vec![Object {
            shape: Shape::from(Plane::new(point(Vec3A::new(0.0, 0.0, 5.0)), direction(-Vec3A::Z))),
            material: wall,
        }],
        // On the central ray, in front of the wall.
        lights: vec![light(Vec3A::ZERO, 0.2, color(1.0, 0.5, 0.25), 2.0)],
    };
    let renderer = Renderer {
        sample_count: 256,
        indirect_count: 4,
        max_value: s(4.0),
        ambient_light: LightRay { color: color(1.0, 1.0, 1.0), intensity: s(1.0) },
    };
    let image = render(&renderer, &scene, WIDTH, HEIGHT);

    // The light's color times its intensity, over the exposure.
    assert_eq!(pixel(&image, WIDTH / 2, HEIGHT / 2), [0.5, 0.25, 0.125]);

    // Elsewhere the wall, in the ambient light that it scatters.
    for y in 0..HEIGHT {
        for x in 0..WIDTH {
            if (x, y) == (WIDTH / 2, HEIGHT / 2) {
                continue;
            }
            let shown = pixel(&image, x, y);
            for (channel, wall) in shown.iter().zip(wall_color) {
                assert!((channel - wall / 4.0).abs() < 0.02, "{x} {y}: {shown:?}");
            }
        }
    }
}

#[test]
fn a_render_without_samples_shows_numbers_all_the_same() {
    let scene = Scene {
        camera: camera(),
        objects: vec![Object {
            shape: Shape::from(Sphere { center: point(Vec3A::ZERO), radius: s(1.0) }),
            material: Surface::new(color(1.0, 1.0, 1.0), 1.0, 0.0, 5),
        }],
        lights: vec![light(Vec3A::new(0.0, 0.0, -20.0), 5.0, color(1.0, 1.0, 1.0), 2.0)],
    };
    let renderer = Renderer {
        sample_count: 0,
        indirect_count: 4,
        max_value: s(4.0),
        ambient_light: LightRay { color: color(1.0, 1.0, 1.0), intensity: s(1.0) },
    };
    let image = render(&renderer, &scene, WIDTH, HEIGHT);
    assert_eq!(image.len(), (WIDTH * HEIGHT) as usize);
    for shown in image.iter().flatten() {
        assert!(!shown.is_nan());
        assert!((0.0..=1.0).contains(shown));
        assert_eq!(*shown, 0.0);
    }
}

#[test]
fn a_render_without_exposure_shows_numbers_all_the_same() {
    let scene = Scene {
        camera: camera(),
        objects: vec![],
        lights: vec![light(Vec3A::ZERO, 0.2, color(1.0, 0.5, 0.0), 2.0)],
    };
    let renderer = Renderer {
        sample_count: 4,
        indirect_count: 0,
        max_value: s(0.0),
        ambient_light: LightRay { color: color(0.0, 0.0, 0.0), intensity: s(0.0) },
    };
    let image = render(&renderer, &scene, WIDTH, HEIGHT);
    for shown in image.iter().flatten() {
        assert!((0.0..=1.0).contains(shown));
    }
    // Some radiance over no exposure is infinite; none over none is no number.
    assert_eq!(pixel(&image, WIDTH / 2, HEIGHT / 2), [1.0, 1.0, 0.0]);
    assert_eq!(pixel(&image, 0, 0), [0.0, 0.0, 0.0]);
}

#[test]
fn a_brighter_exposure_saturates() {
    let scene = Scene {
        camera: camera(),
        objects: vec![],
        lights: vec![light(Vec3A::ZERO, 0.2, color(1.0, 0.5, 0.25), 2048.0)],
    };
    let renderer = Renderer {
        sample_count: 4,
        indirect_count: 0,
        max_value: s(1024.0),
        ambient_light: LightRay { color: color(0.0, 0.0, 0.0), intensity: s(0.0) },
    };
    let image = render(&renderer, &scene, WIDTH, HEIGHT);
    assert_eq!(pixel(&image, WIDTH / 2, HEIGHT / 2), [1.0, 1.0, 0.5]);
    assert_eq!(pixel(&image, 0, 0), [0.0, 0.0, 0.0]);
}

#[test]
fn a_mirror_reflects_about_the_normal() {
    let mirror = Surface::new(color(1.0, 1.0, 1.0), 0.0, 0.0, 3);
    let normal = Vec3A::Y;
    for incoming in [
        Vec3A::new(0.6, -0.8, 0.0),
        Vec3A::new(0.0, -1.0, 0.0),
        Vec3A::new(1.0, -2.0, 3.0).normalize(),
        Vec3A::new(-0.3, -0.1, 0.9).normalize(),
    ] {
        let out = mirror.scatter(ray(Vec3A::new(0.0, 1.0, 0.0), incoming), point(Vec3A::ZERO), direction(normal));
        let expected = incoming - 2.0 * incoming.dot(normal) * normal;
        assert!((g(out.direction()) - expected).length() < 1e-5);
        assert!((g(out.direction()).length() - 1.0).abs() < 1e-5);
        assert!(out.direction().is_normalized());
        assert_eq!(g(out.point()), Vec3A::ZERO);
    }
}

#[test]
fn a_matte_surface_scatters_into_the_hemisphere_of_the_normal() {
    let matte = Surface::new(color(1.0, 1.0, 1.0), 1.0, 0.0, 4);
    let normal = Vec3A::new(1.0, 1.0, 0.0).normalize();
    let incoming = ray(Vec3A::new(5.0, 5.0, 0.0), -normal);
    for _ in 0..2000 {
        let out = matte.scatter(incoming, point(Vec3A::ONE), direction(normal));
        assert!(out.direction().is_normalized());
        assert!((g(out.direction()).length() - 1.0).abs() < 1e-3);
        assert!(g(out.direction()).dot(normal) >= -1e-4);
        assert_eq!(g(out.point()), Vec3A::ONE);
    }
}
