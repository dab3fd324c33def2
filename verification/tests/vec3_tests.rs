use ray_tracing::fx::Fx;
use ray_tracing::rng::Rng;
use ray_tracing::Vec3;

fn v(x: i64, y: i64, z: i64) -> Vec3 {
    Vec3::new(Fx::from_int(x), Fx::from_int(y), Fx::from_int(z))
}

#[test]
fn dot_and_cross_products_are_exact_on_whole_vectors() {
    assert_eq!(v(1, 2, 3).dot(&v(4, 5, 6)), Fx::from_int(32));
    assert_eq!(v(1, 0, 0).cross(&v(0, 1, 0)), v(0, 0, 1));
    assert_eq!(v(0, 1, 0).cross(&v(1, 0, 0)), v(0, 0, -1));
    assert_eq!(v(1, 2, 3).cross(&v(1, 2, 3)), v(0, 0, 0));
}

#[test]
fn componentwise_arithmetic_is_exact() {
    assert_eq!(v(1, 2, 3).add(v(4, 5, 6)), v(5, 7, 9));
    assert_eq!(v(4, 5, 6).sub(v(1, 2, 3)), v(3, 3, 3));
    assert_eq!(v(1, -2, 3).neg(), v(-1, 2, -3));
    assert_eq!(v(1, 2, 3).scale(Fx::from_int(2)), v(2, 4, 6));
    assert_eq!(v(1, 2, 3).cmul(v(2, 3, 4)), v(2, 6, 12));
    assert_eq!(v(2, 4, 6).div_scale(Fx::from_int(2)), v(1, 2, 3));
}

#[test]
fn length_of_a_pythagorean_vector_is_exact() {
    assert_eq!(v(3, 4, 0).length(), Fx::from_int(5));
    assert_eq!(v(3, 4, 0).length_squared(), Fx::from_int(25));
    let n = v(3, 4, 0).normalize();
    assert_eq!(n.x(), Fx::from_ratio(3, 5));
    assert_eq!(n.y(), Fx::from_ratio(4, 5));
    assert_eq!(n.z(), Fx::zero());
}

#[test]
fn near_zero_spots_only_tiny_vectors() {
    assert!(Vec3::zero().near_zero());
    assert!(!v(1, 0, 0).near_zero());
    let tiny = Vec3::new(Fx::from_ratio(1, 1000000000), Fx::zero(), Fx::zero());
    assert!(tiny.near_zero());
}

#[test]
fn random_directions_have_roughly_unit_length() {
    let mut rng = Rng::new(7);
    for _ in 0..32 {
        let d = Vec3::random_unit_vec(&mut rng);
        let len = d.length();
        let err = len.sub(Fx::one()).abs();
        // the sampling formulas round; the length stays within one percent
        assert!(err.raw() < ray_tracing::fx::SCALE / 100, "length {:?}", len);
    }
}

#[test]
fn random_in_sphere_and_disk_stay_inside() {
    let mut rng = Rng::new(99);
    let bound = Fx::one().add(Fx::from_ratio(1, 100));
    for _ in 0..32 {
        let p = Vec3::random_in_unit_sphere(&mut rng);
        assert!(p.length().le(bound));
        let q = Vec3::random_in_unit_disk(&mut rng);
        assert!(q.length().le(bound));
        assert_eq!(q.z(), Fx::zero());
    }
}

#[test]
fn sample_streams_are_reproducible() {
    let mut a = Rng::new(123);
    let mut b = Rng::new(123);
    for _ in 0..16 {
        assert_eq!(a.next_u64(), b.next_u64());
    }
    let mut c = Rng::new(124);
    let mut d = Rng::new(123);
    assert_ne!(c.next_u64(), d.next_u64());
}
