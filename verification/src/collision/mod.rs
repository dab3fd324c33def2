//! Rays, intersection records and the two capability traits.
//!
//! A [`Hit`] is only built through [`Hit::with_face_normal`], which orients
//! the stored normal against the incoming ray and records on which side the
//! ray struck. [`hit_wf`] is the well-formedness every intersection routine
//! guarantees of a reported hit: the parameter lies strictly inside the
//! acceptance window, the point lies on the ray, and the normal opposes the
//! ray direction.

pub mod materials;
pub mod objects;

use crate::fx::Fx;
use crate::rng::Rng;
use crate::vec3::{lemma_dot_neg, v3_add, v3_dot, v3_neg, v3_scale, Vec3, V3};
use crate::collision::materials::MaterialKind;
use vstd::prelude::*;

verus! {

/// The model of a ray: origin and direction counts.
pub struct RayV {
    pub orig: V3,
    pub dir: V3,
}

/// The point a ray reaches at parameter `t`.
pub open spec fn ray_at(r: RayV, t: int) -> V3 {
    v3_add(r.orig, v3_scale(r.dir, t))
}

#[derive(Clone, Copy, Debug, PartialEq, Eq, Structural)]
pub struct Ray {
    pub origin: Vec3,
    pub direction: Vec3,
}

impl Ray {
    /// The model of this ray.
    pub open spec fn rv(self) -> RayV {
        RayV { orig: self.origin.v3(), dir: self.direction.v3() }
    }

    pub fn at(&self, t: Fx) -> (r: Vec3)
        ensures
            r.v3() == ray_at(self.rv(), t.v()),
    {
        self.origin.add(self.direction.scale(t))
    }

    pub fn hit<T: Hittable>(&self, hittable: &T, t_min: Fx, t_max: Fx) -> (r: Option<Hit>)
        ensures
            r matches Some(h) ==> hit_wf(h, *self, t_min.v(), t_max.v()),
    {
        hittable.hit(self, t_min, t_max)
    }
}

#[derive(Clone, Copy, Debug, PartialEq, Eq, Structural)]
pub struct Hit {
    pub point: Vec3,
    pub normal: Vec3,
    pub t: Fx,
    pub front_face: bool,
    pub material: MaterialKind,
}

/// What every reported intersection guarantees: the parameter lies in the
/// half-open window, the point is the ray's point at that parameter, and
/// the stored normal never points along the ray (strictly against it when
/// the front face was struck).
pub open spec fn hit_wf(h: Hit, ray: Ray, t_min: int, t_max: int) -> bool {
    &&& t_min <= h.t.v() < t_max
    &&& h.point.v3() == ray_at(ray.rv(), h.t.v())
    &&& v3_dot(ray.rv().dir, h.normal.v3()) <= 0
    &&& (h.front_face ==> v3_dot(ray.rv().dir, h.normal.v3()) < 0)
}

impl Hit {
    /// Build a record at parameter `t`, flipping the supplied outward
    /// normal if the ray strikes from inside, and noting the side struck.
    pub fn with_face_normal(ray: &Ray, outward_normal: Vec3, t: Fx, material: MaterialKind) -> (r:
        Hit)
        ensures
            r.t == t,
            r.material == material,
            r.point.v3() == ray_at(ray.rv(), t.v()),
            r.front_face == (v3_dot(ray.rv().dir, outward_normal.v3()) < 0),
            r.normal.v3() == if r.front_face {
                outward_normal.v3()
            } else {
                v3_neg(outward_normal.v3())
            },
            v3_dot(ray.rv().dir, r.normal.v3()) <= 0,
            r.front_face ==> v3_dot(ray.rv().dir, r.normal.v3()) < 0,
    {
        let d = ray.direction.dot(&outward_normal);
        let front_face = d.lt(Fx::zero());
        let normal = if front_face {
            outward_normal
        } else {
            outward_normal.neg()
        };
        proof {
            lemma_dot_neg(ray.rv().dir, outward_normal.v3());
        }
        Hit { point: ray.at(t), normal, t, front_face, material }
    }
}

/// Anything a ray can intersect over a half-open parameter window.
pub trait Hittable {
    fn hit(&self, ray: &Ray, t_min: Fx, t_max: Fx) -> (r: Option<Hit>)
        ensures
            r matches Some(h) ==> hit_wf(h, *ray, t_min.v(), t_max.v()),
    ;
}

/// A surface's response to being struck: an attenuation colour and a
/// scattered ray, or absorption. Every scattered ray starts at the point
/// that was struck.
pub trait Material {
    fn scatter(&self, ray: &Ray, hit: &Hit, rng: &mut Rng) -> (r: Option<(Vec3, Ray)>)
        ensures
            r matches Some(p) ==> p.1.origin == hit.point,
    ;
}

} // verus!
