//! The three scattering models.
//!
//! Each scatter is a pure function of the incoming ray, the hit record and
//! the sample stream; its contract pins the attenuation, the scattered
//! direction and the stream's advance exactly, through spec mirrors of the
//! reflection, refraction and Schlick formulas.

use super::{Hit, Material, Ray};
use crate::fx::{fx_add, fx_div, fx_mul, fx_sqrt, fx_sub, abs_i, tdiv, Fx, SCALE};
use crate::rng::{rng_out, rng_step, rng_step2, unit_from, Rng};
use crate::vec3::{
    in_sphere_from, unit_vec_from, v3_add, v3_dot, v3_len2, v3_near_zero, v3_neg, v3_scale, v3_sub,
    v3_unit, Vec3, V3,
};
use vstd::prelude::*;

verus! {

/// Mirror reflection of `v` about the normal `n`.
pub open spec fn reflect_spec(v: V3, n: V3) -> V3 {
    v3_sub(v, v3_scale(n, fx_mul(Fx::spec_from_int(2), v3_dot(v, n))))
}

/// Fifth power, evaluated as `((x^2)^2) * x`.
pub open spec fn pow5_spec(x: int) -> int {
    let x2 = fx_mul(x, x);
    let x4 = fx_mul(x2, x2);
    fx_mul(x4, x)
}

/// Schlick's reflectance approximation.
pub open spec fn reflectance_spec(cosine: int, refraction_index: int) -> int {
    let r0 = fx_div(
        fx_sub(Fx::spec_from_int(1), refraction_index),
        fx_add(Fx::spec_from_int(1), refraction_index),
    );
    let r02 = fx_mul(r0, r0);
    fx_add(r02, fx_mul(fx_sub(Fx::spec_from_int(1), r02), pow5_spec(fx_sub(Fx::spec_from_int(1), cosine))))
}

/// Snell refraction of the unit direction `r_in` at the normal, split into
/// perpendicular and parallel components.
pub open spec fn refract_spec(r_in: V3, normal: V3, etai_over_etat: int) -> V3 {
    let c = v3_dot(v3_neg(r_in), normal);
    let cos_theta = if c <= SCALE as int {
        c
    } else {
        SCALE as int
    };
    let r_out_perp = v3_scale(v3_add(r_in, v3_scale(normal, cos_theta)), etai_over_etat);
    let r_out_parallel = v3_scale(
        normal,
        -fx_sqrt(fx_sub(Fx::spec_from_int(1), v3_len2(r_out_perp))),
    );
    v3_add(r_out_perp, r_out_parallel)
}

pub fn reflect(v: &Vec3, n: &Vec3) -> (r: Vec3)
    ensures
        r.v3() == reflect_spec(v.v3(), n.v3()),
{
    let k = Fx::from_int(2).mul(v.dot(n));
    (*v).sub(n.scale(k))
}

pub fn reflectance(cosine: Fx, refraction_index: Fx) -> (r: Fx)
    ensures
        r.v() == reflectance_spec(cosine.v(), refraction_index.v()),
{
    let one = Fx::from_int(1);
    let r0 = one.sub(refraction_index).div(one.add(refraction_index));
    let r02 = r0.mul(r0);
    let b = one.sub(cosine);
    let b2 = b.mul(b);
    let b4 = b2.mul(b2);
    r02.add(one.sub(r02).mul(b4.mul(b)))
}

pub fn refract(r_in: &Vec3, normal: &Vec3, etai_over_etat: Fx) -> (r: Vec3)
    ensures
        r.v3() == refract_spec(r_in.v3(), normal.v3(), etai_over_etat.v()),
{
    let one = Fx::from_int(1);
    let cos_theta = r_in.neg().dot(normal).min(one);
    let r_out_perp = (*r_in).add(normal.scale(cos_theta)).scale(etai_over_etat);
    let r_out_parallel = normal.scale(one.sub(r_out_perp.length_squared()).sqrt().neg());
    r_out_perp.add(r_out_parallel)
}

/// The diffuse scatter direction drawn from state `s`: the normal plus a
/// unit-sphere direction, or the normal alone when that sum degenerates.
pub open spec fn lambertian_dir(normal: V3, s: u64) -> V3 {
    let d = v3_add(normal, unit_vec_from(s));
    if v3_near_zero(d) {
        normal
    } else {
        d
    }
}

/// A diffuse surface: scatters always, tinted by its albedo.
#[derive(Clone, Copy, Debug, PartialEq, Eq, Structural)]
pub struct Lambertian {
    pub albedo: Vec3,
}

impl Lambertian {
    /// The exact relation between inputs, the sample stream and the result.
    pub open spec fn scatter_rel(
        self,
        ray: Ray,
        hit: Hit,
        s0: u64,
        r: Option<(Vec3, Ray)>,
        s1: u64,
    ) -> bool {
        &&& s1 == rng_step2(s0)
        &&& r is Some
        &&& (r matches Some(p) ==> p.0 == self.albedo && p.1.origin == hit.point
            && p.1.direction.v3() == lambertian_dir(hit.normal.v3(), s0))
    }
}

impl Material for Lambertian {
    fn scatter(&self, ray: &Ray, hit: &Hit, rng: &mut Rng) -> (r: Option<(Vec3, Ray)>)
        ensures
            self.scatter_rel(*ray, *hit, old(rng).s(), r, final(rng).s()),
    {
        let dir: Vec3 = hit.normal.add(Vec3::random_unit_vec(rng));
        let scatter_direction = if dir.near_zero() {
            hit.normal
        } else {
            dir
        };
        Some((self.albedo, Ray { origin: hit.point, direction: scatter_direction }))
    }
}

/// A reflective surface with an optional fuzz perturbation; absorbs rays
/// whose mirror reflection would leave along the surface.
#[derive(Clone, Copy, Debug, PartialEq, Eq, Structural)]
pub struct Metal {
    pub albedo: Vec3,
    pub fuzz: Fx,
}

impl Metal {
    /// The fuzz factor, clamped at construction.
    pub open spec fn fuzz(self) -> int {
        self.fuzz.v()
    }

    pub fn new(albedo: Vec3, fuzz: Fx) -> (r: Metal)
        ensures
            r.albedo == albedo,
            r.fuzz() == if abs_i(fuzz.v()) < SCALE as int {
                fuzz.v()
            } else {
                SCALE as int
            },
    {
        let one = Fx::from_int(1);
        let fuzz = if fuzz.abs().lt(one) {
            fuzz
        } else {
            one
        };
        Metal { albedo, fuzz }
    }

    /// The exact relation between inputs, the sample stream and the result:
    /// the reflected direction is the mirror formula, perturbed only when
    /// fuzz is non-zero, and the scatter is rejected exactly when the mirror
    /// reflection does not leave the surface.
    pub open spec fn scatter_rel(
        self,
        ray: Ray,
        hit: Hit,
        s0: u64,
        r: Option<(Vec3, Ray)>,
        s1: u64,
    ) -> bool {
        let refl = reflect_spec(ray.rv().dir, hit.normal.v3());
        &&& (r is Some) == (v3_dot(refl, hit.normal.v3()) > 0)
        &&& s1 == if self.fuzz() == 0 {
            s0
        } else {
            rng_step(rng_step2(s0))
        }
        &&& (r matches Some(p) ==> p.0 == self.albedo && p.1.origin == hit.point
            && p.1.direction.v3() == if self.fuzz() == 0 {
                refl
            } else {
                v3_add(refl, v3_scale(in_sphere_from(s0), self.fuzz()))
            })
    }
}

impl Material for Metal {
    fn scatter(&self, ray: &Ray, hit: &Hit, rng: &mut Rng) -> (r: Option<(Vec3, Ray)>)
        ensures
            self.scatter_rel(*ray, *hit, old(rng).s(), r, final(rng).s()),
    {
        let reflected = reflect(&ray.direction, &hit.normal);
        let direction = if self.fuzz.is_zero() {
            reflected
        } else {
            reflected.add(Vec3::random_in_unit_sphere(rng).scale(self.fuzz))
        };
        if Fx::zero().lt(reflected.dot(&hit.normal)) {
            Some((self.albedo, Ray { origin: hit.point, direction }))
        } else {
            None
        }
    }
}

/// The refraction ratio at the struck face.
pub open spec fn dielectric_ratio(ri: int, front_face: bool) -> int {
    if front_face {
        fx_div(Fx::spec_from_int(1), ri)
    } else {
        ri
    }
}

/// Cosine of the incidence angle of the normalized direction, capped at one.
pub open spec fn dielectric_cos(d: V3, n: V3) -> int {
    let c = v3_dot(v3_neg(v3_unit(d)), n);
    if c <= SCALE as int {
        c
    } else {
        SCALE as int
    }
}

/// Sine of the incidence angle, from the cosine.
pub open spec fn dielectric_sin(d: V3, n: V3) -> int {
    let c = dielectric_cos(d, n);
    fx_sqrt(fx_sub(Fx::spec_from_int(1), fx_mul(c, c)))
}

/// Whether Snell's law admits no refracted ray (total internal reflection).
pub open spec fn dielectric_cannot_refract(ri: int, front_face: bool, d: V3, n: V3) -> bool {
    fx_mul(dielectric_ratio(ri, front_face), dielectric_sin(d, n)) > SCALE as int
}

/// The outgoing direction: reflection under total internal reflection or a
/// winning Schlick draw, refraction otherwise.
pub open spec fn dielectric_dir(ri: int, front_face: bool, d: V3, n: V3, s0: u64) -> V3 {
    let u = v3_unit(d);
    let ratio = dielectric_ratio(ri, front_face);
    if dielectric_cannot_refract(ri, front_face, d, n) {
        reflect_spec(u, n)
    } else if reflectance_spec(dielectric_cos(d, n), ratio) > unit_from(rng_out(s0)) {
        reflect_spec(u, n)
    } else {
        refract_spec(u, n, ratio)
    }
}

/// A refraction index of one bends no light at the interface: the ratio
/// is one at either face, and Snell's condition for total internal
/// reflection can never hold, so such a surface reflects only when the
/// Schlick draw says so.
pub proof fn lemma_unit_ri_never_reflects_totally(ri: int, front_face: bool, d: V3, n: V3)
    requires
        ri == SCALE as int,
    ensures
        dielectric_ratio(ri, front_face) == SCALE as int,
        !dielectric_cannot_refract(ri, front_face, d, n),
{
    assert(0 <= (SCALE as int) * (SCALE as int)) by (nonlinear_arith);
    vstd::arithmetic::div_mod::lemma_div_multiples_vanish(SCALE as int, SCALE as int);
    assert(tdiv((SCALE as int) * (SCALE as int), SCALE as int) == SCALE as int);
    assert(dielectric_ratio(ri, front_face) == SCALE as int);

    let c = dielectric_cos(d, n);
    crate::fx::lemma_mul_self_nonneg(c);
    let arg = fx_sub(Fx::spec_from_int(1), fx_mul(c, c));
    assert(arg <= SCALE as int);
    crate::fx::lemma_fx_sqrt_le_scale(arg);
    let sin = dielectric_sin(d, n);
    assert(0 <= sin <= SCALE as int);
    crate::fx::lemma_fx_mul_one(sin);
    assert(fx_mul(SCALE as int, sin) == sin);
}

/// A clear surface with a fixed refraction index: scatters always,
/// attenuating nothing.
#[derive(Clone, Copy, Debug, PartialEq, Eq, Structural)]
pub struct Dielectric {
    pub ri: Fx,
}

impl Dielectric {
    /// The exact relation between inputs, the sample stream and the result.
    /// The stream advances only when the Schlick draw was consulted.
    pub open spec fn scatter_rel(
        self,
        ray: Ray,
        hit: Hit,
        s0: u64,
        r: Option<(Vec3, Ray)>,
        s1: u64,
    ) -> bool {
        &&& s1 == if dielectric_cannot_refract(
            self.ri.v(),
            hit.front_face,
            ray.rv().dir,
            hit.normal.v3(),
        ) {
            s0
        } else {
            rng_step(s0)
        }
        &&& r is Some
        &&& (r matches Some(p) ==> p.0.v3() == (V3 {
            x: Fx::spec_from_int(1),
            y: Fx::spec_from_int(1),
            z: Fx::spec_from_int(1),
        }) && p.1.origin == hit.point && p.1.direction.v3() == dielectric_dir(
            self.ri.v(),
            hit.front_face,
            ray.rv().dir,
            hit.normal.v3(),
            s0,
        ))
    }
}

impl Material for Dielectric {
    fn scatter(&self, ray: &Ray, hit: &Hit, rng: &mut Rng) -> (r: Option<(Vec3, Ray)>)
        ensures
            self.scatter_rel(*ray, *hit, old(rng).s(), r, final(rng).s()),
    {
        let one = Fx::from_int(1);
        let refraction_ratio = if hit.front_face {
            one.div(self.ri)
        } else {
            self.ri
        };
        let unit_direction = ray.direction.normalize();
        let cos_theta = unit_direction.neg().dot(&hit.normal).min(one);
        let sin_theta = one.sub(cos_theta.mul(cos_theta)).sqrt();

        let cannot_refract = one.lt(refraction_ratio.mul(sin_theta));
        let direction = if cannot_refract {
            reflect(&unit_direction, &hit.normal)
        } else {
            let draw = rng.next_unit();
            if draw.lt(reflectance(cos_theta, refraction_ratio)) {
                reflect(&unit_direction, &hit.normal)
            } else {
                refract(&unit_direction, &hit.normal, refraction_ratio)
            }
        };

        Some((Vec3::new(one, one, one), Ray { origin: hit.point, direction }))
    }
}

/// The closed set of materials a scene may carry, dispatching to the model
/// that was chosen for a surface.
#[derive(Clone, Copy, Debug, PartialEq, Eq, Structural)]
pub enum MaterialKind {
    Lambertian(Lambertian),
    Metal(Metal),
    Dielectric(Dielectric),
}

impl MaterialKind {
    /// The exact relation of whichever model this value carries.
    pub open spec fn scatter_rel(
        self,
        ray: Ray,
        hit: Hit,
        s0: u64,
        r: Option<(Vec3, Ray)>,
        s1: u64,
    ) -> bool {
        match self {
            MaterialKind::Lambertian(m) => m.scatter_rel(ray, hit, s0, r, s1),
            MaterialKind::Metal(m) => m.scatter_rel(ray, hit, s0, r, s1),
            MaterialKind::Dielectric(m) => m.scatter_rel(ray, hit, s0, r, s1),
        }
    }
}

impl Material for MaterialKind {
    fn scatter(&self, ray: &Ray, hit: &Hit, rng: &mut Rng) -> (r: Option<(Vec3, Ray)>)
        ensures
            self.scatter_rel(*ray, *hit, old(rng).s(), r, final(rng).s()),
    {
        match self {
            MaterialKind::Lambertian(m) => m.scatter(ray, hit, rng),
            MaterialKind::Metal(m) => m.scatter(ray, hit, rng),
            MaterialKind::Dielectric(m) => m.scatter(ray, hit, rng),
        }
    }
}

} // verus!
