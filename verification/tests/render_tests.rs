use ray_tracing::collision::materials::{Lambertian, MaterialKind};
use ray_tracing::collision::objects::{Primitive, Sphere};
use ray_tracing::collision::Ray;
use ray_tracing::fx::Fx;
use ray_tracing::render::{
    calculate_pixel, flip_rows, ray_color, render, render_chunk, render_chunked, RenderConfig,
};
use ray_tracing::rng::Rng;
use ray_tracing::{color_to_rgb, Camera, Rgb8, Vec3};

fn v(x: i64, y: i64, z: i64) -> Vec3 {
    Vec3::new(Fx::from_int(x), Fx::from_int(y), Fx::from_int(z))
}

fn one_sphere() -> Vec<Primitive> {
    vec![
        Primitive::Sphere(
            Sphere {
                center: v(0, 0, -1),
                radius: Fx::from_ratio(1, 2),
                material: MaterialKind::Lambertian(
                    Lambertian {
                        albedo: Vec3::new(Fx::from_ratio(4, 5), Fx::from_ratio(4, 5), Fx::zero()),
                    },
                ),
            },
        ),
    ]
}

fn test_camera() -> Camera {
    Camera::new(
        v(0, 0, 0),
        v(0, 0, -1),
        v(0, 1, 0),
        Fx::from_int(90),
        Fx::from_ratio(16, 9),
        Fx::zero(),
        Fx::one(),
    )
}

#[test]
fn exhausted_depth_is_black_for_any_ray() {
    let world = one_sphere();
    let rays = [
        Ray { origin: v(0, 0, 0), direction: v(0, 0, -1) },
        Ray { origin: v(1, 2, 3), direction: v(0, 1, 0) },
    ];
    for ray in rays.iter() {
        let mut rng = Rng::new(4);
        let c = ray_color(ray, &world, &mut rng, 0);
        assert_eq!(c, v(0, 0, 0));
        let mut rng2 = Rng::new(4);
        assert_eq!(ray_color(ray, &world, &mut rng2, -3), v(0, 0, 0));
    }
}

#[test]
fn missed_rays_return_the_background_gradient() {
    // straight up: the gradient parameter is one, the colour the sky blue
    let up = Ray { origin: v(0, 0, 0), direction: v(0, 1, 0) };
    let mut rng = Rng::new(1);
    let c = ray_color(&up, &vec![], &mut rng, 10);
    let sky = Vec3::new(Fx::from_ratio(1, 2), Fx::from_ratio(7, 10), Fx::one());
    assert_eq!(c, sky);

    // horizontal: the gradient parameter is one half; check against the
    // formula evaluated through the same public scalar operations
    let level = Ray { origin: v(0, 0, 0), direction: v(1, 0, 0) };
    let mut rng2 = Rng::new(1);
    let c2 = ray_color(&level, &vec![], &mut rng2, 10);
    let one = Fx::one();
    let t = Fx::from_ratio(1, 2).mul(level.direction.normalize().y().add(one));
    let expected = v(1, 1, 1).scale(one.sub(t)).add(sky.scale(t));
    assert_eq!(c2, expected);

    // a scene the ray cannot see changes nothing
    let mut rng3 = Rng::new(1);
    let c3 = ray_color(&up, &one_sphere(), &mut rng3, 10);
    assert_eq!(c3, sky);
}

#[test]
fn quantization_is_exact_on_representable_channels() {
    let white = v(1, 1, 1);
    let p = color_to_rgb(white, 1);
    assert_eq!((p.r, p.g, p.b), (255, 255, 255));

    // a quarter becomes one half after gamma correction: byte 128
    let c = Vec3::new(Fx::from_ratio(1, 4), Fx::zero(), Fx::one());
    let q = color_to_rgb(c, 1);
    assert_eq!((q.r, q.g, q.b), (128, 0, 255));

    // averaging four white samples leaves a quarter per channel
    let sum = v(1, 1, 1);
    let averaged = color_to_rgb(sum, 4);
    assert_eq!((averaged.r, averaged.g, averaged.b), (128, 128, 128));

    // negative channels clamp to black
    let neg = v(-1, -1, -1);
    let z = color_to_rgb(neg, 1);
    assert_eq!((z.r, z.g, z.b), (0, 0, 0));
}

#[test]
fn square_camera_geometry_matches_the_closed_forms() {
    // a square viewport with a ninety-degree field of view at focus one:
    // the basis is axis-aligned and the viewport spans two units
    let cam = Camera::new(
        v(0, 0, 0),
        v(0, 0, -1),
        v(0, 1, 0),
        Fx::from_int(90),
        Fx::one(),
        Fx::zero(),
        Fx::one(),
    );
    assert_eq!(cam.w, v(0, 0, 1));
    assert_eq!(cam.u, v(1, 0, 0));
    assert_eq!(cam.v, v(0, 1, 0));
    assert_eq!(cam.lens_radius, Fx::zero());
    // tan of half the field of view is one, up to the cosine approximation
    let tol = Fx::from_ratio(1, 50);
    assert!(cam.horizontal.sub(v(2, 0, 0)).length().lt(tol));
    assert!(cam.vertical.sub(v(0, 2, 0)).length().lt(tol));
    assert!(cam.lower_left_corner.sub(v(-1, -1, -1)).length().lt(tol));

    // the centre ray leaves the eye straight ahead
    let mut rng = Rng::new(1);
    let ray = cam.get_ray(Fx::from_ratio(1, 2), Fx::from_ratio(1, 2), &mut rng);
    assert_eq!(ray.origin, v(0, 0, 0));
    assert!(ray.direction.sub(v(0, 0, -1)).length().lt(tol));
}

#[test]
fn zero_aperture_camera_shoots_from_the_eye() {
    let cam = test_camera();
    let mut rng = Rng::new(2);
    let ray = cam.get_ray(Fx::from_ratio(1, 2), Fx::from_ratio(1, 2), &mut rng);
    assert_eq!(ray.origin, v(0, 0, 0));
}

#[test]
fn pixels_are_deterministic_for_a_seed() {
    let world = one_sphere();
    let cam = test_camera();
    let cfg = RenderConfig {
        width: 4,
        height: 3,
        samples_per_pixel: 2,
        max_depth: 4,
        base_seed: 42,
    };
    assert!(cfg.valid());
    let mut rng_a = Rng::new(7);
    let mut rng_b = Rng::new(7);
    let a = calculate_pixel(1, 2, &cam, &world, &mut rng_a, &cfg);
    let b = calculate_pixel(1, 2, &cam, &world, &mut rng_b, &cfg);
    assert_eq!(a, b);
    assert_eq!(rng_a, rng_b);
}

#[test]
fn chunked_render_matches_sequential_render_pixel_for_pixel() {
    let world = one_sphere();
    let cam = test_camera();
    let cfg = RenderConfig {
        width: 5,
        height: 4,
        samples_per_pixel: 2,
        max_depth: 4,
        base_seed: 9,
    };
    let whole = render(&world, &cam, &cfg);
    assert_eq!(whole.len(), 20);
    for chunk_size in [1usize, 3, 7, 20, 50] {
        let chunked = render_chunked(&world, &cam, &cfg, chunk_size);
        assert_eq!(whole, chunked, "chunk size {}", chunk_size);
    }
    // and a chunk rendered alone matches its slice of the whole
    let part = render_chunk(&world, &cam, &cfg, 6, 5);
    assert_eq!(&whole[6..11], &part[..]);
}

#[test]
fn a_sphere_scene_renders_differently_from_an_empty_one() {
    let cam = test_camera();
    let cfg = RenderConfig {
        width: 4,
        height: 4,
        samples_per_pixel: 2,
        max_depth: 4,
        base_seed: 5,
    };
    let with_sphere = render(&one_sphere(), &cam, &cfg);
    let empty = render(&vec![], &cam, &cfg);
    assert_ne!(with_sphere, empty);
}

#[test]
fn flipping_rows_reverses_the_vertical_order() {
    let cfg = RenderConfig {
        width: 2,
        height: 2,
        samples_per_pixel: 1,
        max_depth: 1,
        base_seed: 0,
    };
    let px = |n: u8| Rgb8 { r: n, g: n, b: n };
    let buf = vec![px(0), px(1), px(2), px(3)];
    let flipped = flip_rows(&buf, &cfg);
    assert_eq!(flipped, vec![px(2), px(3), px(0), px(1)]);
}
