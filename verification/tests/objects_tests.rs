use ray_tracing::collision::materials::{Lambertian, MaterialKind};
use ray_tracing::collision::objects::{world_hit, Parallelogram, Primitive, Sphere, Torus};
use ray_tracing::collision::{Hittable, Ray};
use ray_tracing::fx::{Fx, CAP};
use ray_tracing::Vec3;

fn v(x: i64, y: i64, z: i64) -> Vec3 {
    Vec3::new(Fx::from_int(x), Fx::from_int(y), Fx::from_int(z))
}

fn yellowish() -> MaterialKind {
    MaterialKind::Lambertian(
        Lambertian {
            albedo: Vec3::new(Fx::from_ratio(4, 5), Fx::from_ratio(4, 5), Fx::zero()),
        },
    )
}

fn window() -> (Fx, Fx) {
    (Fx::from_ratio(1, 1000), Fx::from_raw(CAP))
}

#[test]
fn sphere_straight_on_reports_the_textbook_hit() {
    // a sphere of radius one half, one unit down the negative z axis,
    // lit from the origin straight along -z
    let sphere = Sphere {
        center: v(0, 0, -1),
        radius: Fx::from_ratio(1, 2),
        material: yellowish(),
    };
    let ray = Ray { origin: v(0, 0, 0), direction: v(0, 0, -1) };
    let (t_min, t_max) = window();
    let hit = sphere.hit(&ray, t_min, t_max).expect("must hit");
    assert_eq!(hit.t, Fx::from_ratio(1, 2));
    assert_eq!(hit.point, Vec3::new(Fx::zero(), Fx::zero(), Fx::from_ratio(-1, 2)));
    assert_eq!(hit.normal, v(0, 0, 1));
    assert!(hit.front_face);
    assert_eq!(hit.material, yellowish());
}

#[test]
fn oblique_sphere_hit_lies_on_the_surface_with_a_unit_normal() {
    let sphere = Sphere {
        center: v(0, 0, -1),
        radius: Fx::from_ratio(1, 2),
        material: yellowish(),
    };
    // off-centre ray: the hit point and normal are only approximate
    let ray = Ray {
        origin: Vec3::new(Fx::zero(), Fx::from_ratio(3, 10), Fx::zero()),
        direction: v(0, 0, -1),
    };
    let (t_min, t_max) = window();
    let hit = sphere.hit(&ray, t_min, t_max).expect("must hit");
    let tolerance = Fx::from_ratio(1, 1000);
    // the hit point sits at one radius from the center
    let surface_err = hit.point.sub(sphere.center).length().sub(sphere.radius).abs();
    assert!(surface_err.lt(tolerance), "off surface by {:?}", surface_err);
    // the reported normal has unit length
    let len_err = hit.normal.length().sub(Fx::one()).abs();
    assert!(len_err.lt(tolerance), "normal length off by {:?}", len_err);
    // and it opposes the incoming direction on this front-face strike
    assert!(hit.front_face);
    assert!(hit.normal.dot(&ray.direction).raw() < 0);
}

#[test]
fn sphere_miss_and_degenerate_ray_report_nothing() {
    let sphere = Sphere {
        center: v(0, 0, -1),
        radius: Fx::from_ratio(1, 2),
        material: yellowish(),
    };
    let (t_min, t_max) = window();
    let away = Ray { origin: v(0, 0, 0), direction: v(0, 0, 1) };
    assert!(sphere.hit(&away, t_min, t_max).is_none());
    let degenerate = Ray { origin: v(0, 0, 0), direction: v(0, 0, 0) };
    assert!(sphere.hit(&degenerate, t_min, t_max).is_none());
}

#[test]
fn sphere_hit_stays_inside_the_window() {
    let sphere = Sphere {
        center: v(0, 0, -1),
        radius: Fx::from_ratio(1, 2),
        material: yellowish(),
    };
    let ray = Ray { origin: v(0, 0, 0), direction: v(0, 0, -1) };
    // the near root at one half lies outside [0.001, 0.4): no hit
    assert!(sphere.hit(&ray, Fx::from_ratio(1, 1000), Fx::from_ratio(2, 5)).is_none());
    // past the near root the far root at 1.5 is reported, struck from inside
    let hit = sphere.hit(&ray, Fx::from_ratio(3, 5), Fx::from_raw(CAP)).expect("far root");
    assert_eq!(hit.t, Fx::from_ratio(3, 2));
    assert!(!hit.front_face);
    assert_eq!(hit.normal, v(0, 0, 1));
}

#[test]
fn parallelogram_face_hit_is_exact() {
    // a unit box with a corner at (-1/2, -1/2, -2), extending toward -z
    let c = Vec3::new(Fx::from_ratio(-1, 2), Fx::from_ratio(-1, 2), Fx::from_int(-2));
    let p = Parallelogram::new(c, v(1, 0, 0), v(0, 1, 0), v(0, 0, -1), yellowish());
    let ray = Ray { origin: v(0, 0, 0), direction: v(0, 0, -1) };
    let (t_min, t_max) = window();
    let hit = p.hit(&ray, t_min, t_max).expect("front face");
    assert_eq!(hit.t, Fx::from_int(2));
    assert_eq!(hit.normal, v(0, 0, 1));
    assert!(hit.front_face);
    let aside = Ray { origin: v(3, 0, 0), direction: v(0, 0, -1) };
    assert!(p.hit(&aside, t_min, t_max).is_none());
}

#[test]
fn torus_is_hit_through_the_tube_and_missed_through_the_hole() {
    let torus = Torus {
        center: v(0, 0, -2),
        major: Fx::from_ratio(3, 5),
        minor: Fx::from_ratio(1, 5),
        material: yellowish(),
    };
    let (t_min, t_max) = window();
    // straight through the hole: no intersection
    let through = Ray { origin: v(0, 0, 0), direction: v(0, 0, -1) };
    assert!(torus.hit(&through, t_min, t_max).is_none());
    // toward the tube at (0.6, 0, -2)
    let at_tube = Ray {
        origin: v(0, 0, 0),
        direction: Vec3::new(Fx::from_ratio(3, 5), Fx::zero(), Fx::from_int(-2)),
    };
    let hit = torus.hit(&at_tube, t_min, t_max).expect("tube");
    // the stored normal never points along the ray
    assert!(hit.normal.dot(&at_tube.direction).raw() <= 0);
    assert!(Fx::from_ratio(1, 2).lt(hit.t) && hit.t.lt(Fx::from_int(2)));
}

#[test]
fn closest_hit_wins_regardless_of_member_order() {
    let near = Primitive::Sphere(
        Sphere { center: v(0, 0, -1), radius: Fx::from_ratio(1, 4), material: yellowish() },
    );
    let far = Primitive::Sphere(
        Sphere { center: v(0, 0, -3), radius: Fx::from_ratio(1, 4), material: yellowish() },
    );
    let ray = Ray { origin: v(0, 0, 0), direction: v(0, 0, -1) };
    let (t_min, t_max) = window();

    let a = world_hit(&vec![near, far], &ray, t_min, t_max).expect("hit");
    let b = world_hit(&vec![far, near], &ray, t_min, t_max).expect("hit");
    assert_eq!(a.t, Fx::from_ratio(3, 4));
    assert_eq!(b.t, Fx::from_ratio(3, 4));
    assert_eq!(a.point, b.point);
    assert_eq!(a.normal, b.normal);
}

#[test]
fn scan_of_missing_members_reports_nothing() {
    let behind = Primitive::Sphere(
        Sphere { center: v(0, 0, 5), radius: Fx::from_int(1), material: yellowish() },
    );
    let ray = Ray { origin: v(0, 0, 0), direction: v(0, 0, -1) };
    let (t_min, t_max) = window();
    assert!(world_hit(&vec![behind], &ray, t_min, t_max).is_none());
    assert!(world_hit(&vec![], &ray, t_min, t_max).is_none());
}

#[test]
fn ray_hit_delegates_to_the_hittable() {
    let world = vec![
        Primitive::Sphere(
            Sphere { center: v(0, 0, -1), radius: Fx::from_ratio(1, 2), material: yellowish() },
        ),
    ];
    let ray = Ray { origin: v(0, 0, 0), direction: v(0, 0, -1) };
    let (t_min, t_max) = window();
    let hit = ray.hit(&world, t_min, t_max).expect("hit");
    assert_eq!(hit.t, Fx::from_ratio(1, 2));
}
