use ray_tracing::collision::materials::{reflect, Dielectric, Lambertian, MaterialKind, Metal};
use ray_tracing::collision::{Hit, Material, Ray};
use ray_tracing::fx::{Fx, SCALE};
use ray_tracing::rng::Rng;
use ray_tracing::Vec3;

fn v(x: i64, y: i64, z: i64) -> Vec3 {
    Vec3::new(Fx::from_int(x), Fx::from_int(y), Fx::from_int(z))
}

fn grey() -> MaterialKind {
    MaterialKind::Lambertian(
        Lambertian {
            albedo: Vec3::new(
                Fx::from_ratio(1, 2),
                Fx::from_ratio(1, 2),
                Fx::from_ratio(1, 2),
            ),
        },
    )
}

/// A ray from (-1, 1, 0) along (1, -1, 0) striking the plane y == 0 at
/// the origin, whose outward normal is +y.
fn oblique_hit() -> (Ray, Hit) {
    let ray = Ray { origin: v(-1, 1, 0), direction: v(1, -1, 0) };
    let hit = Hit::with_face_normal(&ray, v(0, 1, 0), Fx::from_int(1), grey());
    (ray, hit)
}

#[test]
fn with_face_normal_orients_against_the_ray() {
    let (_, hit) = oblique_hit();
    assert!(hit.front_face);
    assert_eq!(hit.normal, v(0, 1, 0));
    assert_eq!(hit.point, v(0, 0, 0));
    // struck from the other side: the stored normal flips
    let inside = Ray { origin: v(0, -1, 0), direction: v(0, 1, 0) };
    let h2 = Hit::with_face_normal(&inside, v(0, 1, 0), Fx::from_int(1), grey());
    assert!(!h2.front_face);
    assert_eq!(h2.normal, v(0, -1, 0));
}

#[test]
fn lambertian_always_scatters_from_the_hit_point() {
    let albedo = Vec3::new(Fx::from_ratio(4, 5), Fx::from_ratio(4, 5), Fx::zero());
    let mat = Lambertian { albedo };
    let (ray, hit) = oblique_hit();
    for seed in 0..32u64 {
        let mut rng = Rng::new(seed);
        let (attenuation, scattered) = mat.scatter(&ray, &hit, &mut rng).expect("never absorbs");
        assert_eq!(attenuation, albedo);
        assert_eq!(scattered.origin, hit.point);
        assert!(!scattered.direction.near_zero());
    }
}

#[test]
fn fuzzless_metal_is_a_perfect_mirror() {
    let albedo = Vec3::new(Fx::one(), Fx::one(), Fx::one());
    let mat = Metal::new(albedo, Fx::zero());
    let (ray, hit) = oblique_hit();
    let mut rng = Rng::new(5);
    let before = rng.clone();
    let (attenuation, scattered) = mat.scatter(&ray, &hit, &mut rng).expect("reflects");
    // reflect(d, n) == d - 2 (d . n) n, here (1, 1, 0)
    assert_eq!(scattered.direction, v(1, 1, 0));
    assert_eq!(scattered.direction, reflect(&ray.direction, &hit.normal));
    assert_eq!(attenuation, albedo);
    assert_eq!(scattered.origin, hit.point);
    // no fuzz: the sample stream was never consulted
    assert_eq!(rng, before);
}

#[test]
fn metal_absorbs_a_grazing_ray() {
    // the reflection of a ray sliding along the surface does not leave it
    let mat = Metal::new(v(1, 1, 1), Fx::zero());
    let ray = Ray { origin: v(-1, 0, 0), direction: v(1, 0, 0) };
    let hit = Hit::with_face_normal(&ray, v(0, 1, 0), Fx::from_int(1), grey());
    let mut rng = Rng::new(5);
    assert!(mat.scatter(&ray, &hit, &mut rng).is_none());
}

#[test]
fn fuzzy_metal_perturbs_the_mirror_direction() {
    let mat = Metal::new(v(1, 1, 1), Fx::from_ratio(1, 2));
    let (ray, hit) = oblique_hit();
    let mut rng = Rng::new(11);
    let (_, scattered) = mat.scatter(&ray, &hit, &mut rng).expect("reflects");
    let offset = scattered.direction.sub(v(1, 1, 0));
    // the perturbation stays within the fuzz radius, but moved the ray
    assert!(offset.length().le(Fx::from_ratio(1, 2).add(Fx::from_ratio(1, 100))));
}

#[test]
fn metal_new_clamps_large_fuzz() {
    let m = Metal::new(v(1, 1, 1), Fx::from_int(7));
    assert_eq!(m.fuzz, Fx::one());
    let kept = Metal::new(v(1, 1, 1), Fx::from_ratio(1, 4));
    assert_eq!(kept.fuzz, Fx::from_ratio(1, 4));
}

#[test]
fn unit_index_dielectric_does_not_bend_light() {
    let mat = Dielectric { ri: Fx::one() };
    // oblique incidence on the plane z == 0 from above
    let ray = Ray {
        origin: v(0, 0, 1),
        direction: Vec3::new(Fx::from_ratio(3, 5), Fx::zero(), Fx::from_ratio(-4, 5)),
    };
    let hit = Hit::with_face_normal(&ray, v(0, 0, 1), Fx::from_int(1), grey());
    let mut rng = Rng::new(3);
    let (attenuation, scattered) = mat.scatter(&ray, &hit, &mut rng).expect("always scatters");
    assert_eq!(attenuation, v(1, 1, 1));
    // outgoing direction equals the normalized incoming one up to rounding
    let unit_in = ray.direction.normalize();
    let err = scattered.direction.sub(unit_in).length();
    assert!(
        err.raw() < SCALE / 1000,
        "bent by {:?} into {:?}",
        err,
        scattered.direction,
    );
}

#[test]
fn steep_exit_reflects_totally() {
    // inside glass, striking the surface almost sideways: total internal
    // reflection leaves the direction mirrored, never refracted
    let mat = Dielectric { ri: Fx::from_ratio(3, 2) };
    let ray = Ray {
        origin: v(0, 0, -1),
        direction: Vec3::new(Fx::one(), Fx::zero(), Fx::from_ratio(1, 10)),
    };
    // striking the inside of the surface: the back face
    let hit = Hit::with_face_normal(&ray, v(0, 0, 1), Fx::from_int(1), grey());
    assert!(!hit.front_face);
    let mut rng = Rng::new(8);
    let (_, scattered) = mat.scatter(&ray, &hit, &mut rng).expect("always scatters");
    let expected = reflect(&ray.direction.normalize(), &hit.normal);
    assert_eq!(scattered.direction, expected);
}
