//! Scene primitives and the scene-wide closest-hit scan.
//!
//! Each primitive's intersection is pinned to a spec mirror over the
//! fixed-point model, so the reported parameter, point, normal orientation
//! and material are exact functions of the inputs. The scene scan keeps
//! the closest hit by narrowing the acceptance window as it walks the
//! members.

use super::{hit_wf, ray_at, Hit, Hittable, Ray, RayV};
use crate::collision::materials::MaterialKind;
use crate::fx::{fx_add, fx_div, fx_mul, fx_sqrt, fx_sub, tdiv, Fx, CAP, SCALE};
use crate::vec3::{v3_cross, v3_div_s, v3_dot, v3_len2, v3_neg, v3_sub, v3_unit, Vec3, V3};
use vstd::prelude::*;

verus! {

/// A sphere given by its center and radius.
#[derive(Clone, Copy, Debug, PartialEq, Eq, Structural)]
pub struct Sphere {
    pub center: Vec3,
    pub radius: Fx,
    pub material: MaterialKind,
}

/// The sphere intersection parameter: the nearer quadratic root inside the
/// window, else the farther one, else nothing. A degenerate (zero-length)
/// ray direction reports no hit.
pub open spec fn sphere_hit_t(center: V3, radius: int, ray: RayV, t_min: int, t_max: int) -> Option<
    int,
> {
    let oc = v3_sub(ray.orig, center);
    let a = v3_len2(ray.dir);
    let half_b = v3_dot(oc, ray.dir);
    let c = fx_sub(v3_len2(oc), fx_mul(radius, radius));
    let disc = fx_sub(fx_mul(half_b, half_b), fx_mul(a, c));
    if a == 0 || disc < 0 {
        None
    } else {
        let sqrtd = fx_sqrt(disc);
        let root1 = fx_div(fx_sub(-half_b, sqrtd), a);
        if t_min <= root1 < t_max {
            Some(root1)
        } else {
            let root2 = fx_div(fx_add(-half_b, sqrtd), a);
            if t_min <= root2 < t_max {
                Some(root2)
            } else {
                None
            }
        }
    }
}

/// The sphere's outward normal at the point reached at parameter `t`.
pub open spec fn sphere_outward(center: V3, radius: int, ray: RayV, t: int) -> V3 {
    v3_div_s(v3_sub(ray_at(ray, t), center), radius)
}

impl Hittable for Sphere {
    fn hit(&self, ray: &Ray, t_min: Fx, t_max: Fx) -> (r: Option<Hit>)
        ensures
            (r is Some) == (sphere_hit_t(
                self.center.v3(),
                self.radius.v(),
                ray.rv(),
                t_min.v(),
                t_max.v(),
            ) is Some),
            r matches Some(h) ==> {
                let t = sphere_hit_t(
                    self.center.v3(),
                    self.radius.v(),
                    ray.rv(),
                    t_min.v(),
                    t_max.v(),
                )->Some_0;
                let outward = sphere_outward(self.center.v3(), self.radius.v(), ray.rv(), t);
                &&& h.t.v() == t
                &&& h.material == self.material
                &&& h.point.v3() == ray_at(ray.rv(), t)
                &&& h.front_face == (v3_dot(ray.rv().dir, outward) < 0)
                &&& h.normal.v3() == if h.front_face {
                    outward
                } else {
                    v3_neg(outward)
                }
            },
    {
        let oc: Vec3 = ray.origin.sub(self.center);
        let a = ray.direction.length_squared();
        let half_b = oc.dot(&ray.direction);
        let c = oc.length_squared().sub(self.radius.mul(self.radius));
        let discriminant = half_b.mul(half_b).sub(a.mul(c));
        if a.is_zero() || discriminant.lt(Fx::zero()) {
            return None;
        }
        let sqrtd = discriminant.sqrt();

        let root1 = half_b.neg().sub(sqrtd).div(a);
        let root = if t_min.le(root1) && root1.lt(t_max) {
            root1
        } else {
            let root2 = half_b.neg().add(sqrtd).div(a);
            if t_min.le(root2) && root2.lt(t_max) {
                root2
            } else {
                return None;
            }
        };

        let point = ray.at(root);
        let outward_normal = point.sub(self.center).div_scale(self.radius);
        Some(Hit::with_face_normal(ray, outward_normal, root, self.material))
    }
}

/// Determinant of the matrix with columns `c0`, `c1`, `c2`.
pub open spec fn det3_spec(c0: V3, c1: V3, c2: V3) -> int {
    v3_dot(v3_cross(c0, c1), c2)
}

/// Cramer solution of the column system `[c0 c1 c2] * r == rhs`; nothing
/// when the determinant count is zero.
pub open spec fn solve3_spec(c0: V3, c1: V3, c2: V3, rhs: V3) -> Option<V3> {
    let d = det3_spec(c0, c1, c2);
    if d == 0 {
        None
    } else {
        Some(
            V3 {
                x: fx_div(det3_spec(rhs, c1, c2), d),
                y: fx_div(det3_spec(c0, rhs, c2), d),
                z: fx_div(det3_spec(c0, c1, rhs), d),
            },
        )
    }
}

fn det3(c0: &Vec3, c1: &Vec3, c2: &Vec3) -> (r: Fx)
    ensures
        r.v() == det3_spec(c0.v3(), c1.v3(), c2.v3()),
{
    c0.cross(c1).dot(c2)
}

fn solve3(c0: &Vec3, c1: &Vec3, c2: &Vec3, rhs: &Vec3) -> (r: Option<Vec3>)
    ensures
        (r is Some) == (solve3_spec(c0.v3(), c1.v3(), c2.v3(), rhs.v3()) is Some),
        r matches Some(s) ==> s.v3() == solve3_spec(c0.v3(), c1.v3(), c2.v3(), rhs.v3())->Some_0,
{
    let d = det3(c0, c1, c2);
    if d.is_zero() {
        None
    } else {
        Some(
            Vec3 {
                x: det3(rhs, c1, c2).div(d),
                y: det3(c0, rhs, c2).div(d),
                z: det3(c0, c1, rhs).div(d),
            },
        )
    }
}

/// One candidate slab face: accept the solved parameter when the two
/// in-face coordinates lie in `[0, 1)` and the parameter improves on the
/// current best within `[t_min, cur)`.
pub open spec fn para_cand(
    state: (int, Option<V3>),
    c0: V3,
    c1: V3,
    negd: V3,
    rhs: V3,
    t_min: int,
    normal_cand: V3,
) -> (int, Option<V3>) {
    match solve3_spec(c0, c1, negd, rhs) {
        None => state,
        Some(s) => if t_min <= s.z < state.0 && 0 <= s.x < SCALE as int && 0 <= s.y < SCALE as int {
            (s.z, Some(normal_cand))
        } else {
            state
        },
    }
}

/// An oriented parallelepiped given by a corner and three edge vectors;
/// face normals are fixed at construction.
#[derive(Clone, Copy, Debug, PartialEq, Eq, Structural)]
pub struct Parallelogram {
    pub corner: Vec3,
    pub axis_u: Vec3,
    pub axis_v: Vec3,
    pub axis_w: Vec3,
    pub normal_vw: Vec3,
    pub normal_uw: Vec3,
    pub normal_uv: Vec3,
    pub material: MaterialKind,
}

/// The cross product of `x` and `y`, flipped if needed to point along
/// `direction`.
pub open spec fn cross_with_dir_spec(x: V3, y: V3, direction: V3) -> V3 {
    let c = v3_cross(x, y);
    if v3_dot(c, direction) < 0 {
        v3_neg(c)
    } else {
        c
    }
}

fn cross_with_dir(x: &Vec3, y: &Vec3, direction: &Vec3) -> (r: Vec3)
    ensures
        r.v3() == cross_with_dir_spec(x.v3(), y.v3(), direction.v3()),
{
    let c = x.cross(y);
    if c.dot(direction).lt(Fx::zero()) {
        c.neg()
    } else {
        c
    }
}

/// The six candidate faces of the parallelepiped, scanned in a fixed
/// order, each narrowing the window.
pub open spec fn para_hit_spec(p: Parallelogram, ray: RayV, t_min: int, t_max: int) -> (
    int,
    Option<V3>,
) {
    let negd = v3_neg(ray.dir);
    let base = v3_sub(ray.orig, p.corner_v());
    let s0 = (t_max, None::<V3>);
    let s1 = para_cand(s0, p.av(), p.aw(), negd, base, t_min, v3_neg(p.nvw()));
    let s2 = para_cand(
        s1,
        p.av(),
        p.aw(),
        negd,
        v3_sub(base, p.au()),
        t_min,
        p.nvw(),
    );
    let s3 = para_cand(s2, p.aw(), p.au(), negd, base, t_min, v3_neg(p.nuw()));
    let s4 = para_cand(
        s3,
        p.aw(),
        p.au(),
        negd,
        v3_sub(base, p.av()),
        t_min,
        p.nuw(),
    );
    let s5 = para_cand(s4, p.au(), p.av(), negd, base, t_min, v3_neg(p.nuv()));
    para_cand(s5, p.au(), p.av(), negd, v3_sub(base, p.aw()), t_min, p.nuv())
}

impl Parallelogram {
    pub open spec fn corner_v(self) -> V3 {
        self.corner.v3()
    }

    pub open spec fn au(self) -> V3 {
        self.axis_u.v3()
    }

    pub open spec fn av(self) -> V3 {
        self.axis_v.v3()
    }

    pub open spec fn aw(self) -> V3 {
        self.axis_w.v3()
    }

    pub open spec fn nvw(self) -> V3 {
        self.normal_vw.v3()
    }

    pub open spec fn nuw(self) -> V3 {
        self.normal_uw.v3()
    }

    pub open spec fn nuv(self) -> V3 {
        self.normal_uv.v3()
    }

    /// Build from a corner and three edge vectors; each stored face normal
    /// is the normalized cross product of two edges, oriented along the
    /// third.
    pub fn new(corner: Vec3, u: Vec3, v: Vec3, w: Vec3, material: MaterialKind) -> (r:
        Parallelogram)
        ensures
            r.corner_v() == corner.v3(),
            r.au() == u.v3(),
            r.av() == v.v3(),
            r.aw() == w.v3(),
            r.nvw() == v3_unit(cross_with_dir_spec(v.v3(), w.v3(), u.v3())),
            r.nuw() == v3_unit(cross_with_dir_spec(u.v3(), w.v3(), v.v3())),
            r.nuv() == v3_unit(cross_with_dir_spec(u.v3(), v.v3(), w.v3())),
            r.material == material,
    {
        let vw = cross_with_dir(&v, &w, &u).normalize();
        let uw = cross_with_dir(&u, &w, &v).normalize();
        let uv = cross_with_dir(&u, &v, &w).normalize();
        Parallelogram {
            corner,
            axis_u: u,
            axis_v: v,
            axis_w: w,
            normal_vw: vw,
            normal_uw: uw,
            normal_uv: uv,
            material,
        }
    }
}

impl Hittable for Parallelogram {
    fn hit(&self, ray: &Ray, t_min: Fx, t_max: Fx) -> (r: Option<Hit>)
        ensures
            (r is Some) == (para_hit_spec(*self, ray.rv(), t_min.v(), t_max.v()).1 is Some),
            r matches Some(h) ==> {
                let st = para_hit_spec(*self, ray.rv(), t_min.v(), t_max.v());
                &&& st.1 matches Some(outward)
                &&& h.t.v() == st.0
                &&& h.material == self.material
                &&& h.point.v3() == ray_at(ray.rv(), st.0)
                &&& h.front_face == (v3_dot(ray.rv().dir, st.1->Some_0) < 0)
                &&& h.normal.v3() == if h.front_face {
                    st.1->Some_0
                } else {
                    v3_neg(st.1->Some_0)
                }
            },
    {
        let mut t = t_max;
        let mut normal: Option<Vec3> = None;

        let negd = ray.direction.neg();
        let base = ray.origin.sub(self.corner);

        // the pair of faces spanned by v and w
        if let Some(s) = solve3(&self.axis_v, &self.axis_w, &negd, &base) {
            if t_min.le(s.z) && s.z.lt(t) && in_face(s.x) && in_face(s.y) {
                t = s.z;
                normal = Some(self.normal_vw.neg());
            }
        }
        if let Some(s) = solve3(&self.axis_v, &self.axis_w, &negd, &base.sub(self.axis_u)) {
            if t_min.le(s.z) && s.z.lt(t) && in_face(s.x) && in_face(s.y) {
                t = s.z;
                normal = Some(self.normal_vw);
            }
        }
        // the pair of faces spanned by w and u
        if let Some(s) = solve3(&self.axis_w, &self.axis_u, &negd, &base) {
            if t_min.le(s.z) && s.z.lt(t) && in_face(s.x) && in_face(s.y) {
                t = s.z;
                normal = Some(self.normal_uw.neg());
            }
        }
        if let Some(s) = solve3(&self.axis_w, &self.axis_u, &negd, &base.sub(self.axis_v)) {
            if t_min.le(s.z) && s.z.lt(t) && in_face(s.x) && in_face(s.y) {
                t = s.z;
                normal = Some(self.normal_uw);
            }
        }
        // the pair of faces spanned by u and v
        if let Some(s) = solve3(&self.axis_u, &self.axis_v, &negd, &base) {
            if t_min.le(s.z) && s.z.lt(t) && in_face(s.x) && in_face(s.y) {
                t = s.z;
                normal = Some(self.normal_uv.neg());
            }
        }
        if let Some(s) = solve3(&self.axis_u, &self.axis_v, &negd, &base.sub(self.axis_w)) {
            if t_min.le(s.z) && s.z.lt(t) && in_face(s.x) && in_face(s.y) {
                t = s.z;
                normal = Some(self.normal_uv);
            }
        }

        match normal {
            None => None,
            Some(n) => Some(Hit::with_face_normal(ray, n, t, self.material)),
        }
    }
}

/// Whether an in-face coordinate lies in `[0, 1)`.
fn in_face(c: Fx) -> (r: bool)
    ensures
        r == (0 <= c.v() < SCALE as int),
{
    Fx::zero().le(c) && c.lt(Fx::one())
}

/// A torus around the z axis through `center`, with major radius `major`
/// and tube radius `minor`.
#[derive(Clone, Copy, Debug, PartialEq, Eq, Structural)]
pub struct Torus {
    pub center: Vec3,
    pub major: Fx,
    pub minor: Fx,
    pub material: MaterialKind,
}

/// The length of one root-search step along the ray (a sixteenth of a
/// unit), and the number of steps taken before the search gives up.
pub const TORUS_STEP: i64 = 0x1000_0000;

pub const TORUS_MARCH_FUEL: u32 = 1024;

pub const TORUS_BISECT_FUEL: u32 = 32;

/// Coefficients `(a4, a3, a2, a1, a0)` of the quartic in `t` obtained by
/// substituting the ray into the implicit torus equation.
pub open spec fn torus_coeffs(p: Torus, ray: RayV) -> (int, int, int, int, int) {
    let oc = v3_sub(ray.orig, p.center.v3());
    let alpha = v3_len2(ray.dir);
    let beta = fx_mul(Fx::spec_from_int(2), v3_dot(oc, ray.dir));
    let gamma = fx_sub(
        fx_add(v3_len2(oc), fx_mul(p.major.v(), p.major.v())),
        fx_mul(p.minor.v(), p.minor.v()),
    );
    let o2 = V3 { x: oc.x, y: oc.y, z: 0 };
    let d2 = V3 { x: ray.dir.x, y: ray.dir.y, z: 0 };
    let r24 = fx_mul(fx_mul(Fx::spec_from_int(4), p.major.v()), p.major.v());
    (
        fx_mul(alpha, alpha),
        fx_mul(fx_mul(Fx::spec_from_int(2), alpha), beta),
        fx_sub(
            fx_add(fx_mul(fx_mul(Fx::spec_from_int(2), alpha), gamma), fx_mul(beta, beta)),
            fx_mul(r24, v3_len2(d2)),
        ),
        fx_mul(Fx::spec_from_int(2), fx_sub(fx_mul(beta, gamma), fx_mul(r24, v3_dot(o2, d2)))),
        fx_sub(fx_mul(gamma, gamma), fx_mul(r24, v3_len2(o2))),
    )
}

/// The quartic evaluated at `t` by Horner's scheme.
pub open spec fn quartic_at(a: (int, int, int, int, int), t: int) -> int {
    fx_add(
        fx_mul(fx_add(fx_mul(fx_add(fx_mul(fx_add(fx_mul(a.0, t), a.1), t), a.2), t), a.3), t),
        a.4,
    )
}

/// Walk the ray in fixed steps until the quartic changes sign over a step
/// (a bracketed root), the window is left, or the fuel runs out.
pub open spec fn torus_march_spec(a: (int, int, int, int, int), t: int, t_max: int, fuel: nat) -> Option<
    (int, int),
>
    decreases fuel,
{
    if fuel == 0 {
        None
    } else if t >= t_max {
        None
    } else {
        let t2 = fx_add(t, TORUS_STEP as int);
        if fx_mul(quartic_at(a, t), quartic_at(a, t2)) <= 0 {
            Some((t, t2))
        } else {
            torus_march_spec(a, t2, t_max, (fuel - 1) as nat)
        }
    }
}

/// Shrink a bracket by repeated halving, keeping the half over which the
/// quartic changes sign.
pub open spec fn torus_bisect_spec(a: (int, int, int, int, int), lo: int, hi: int, fuel: nat) -> int
    decreases fuel,
{
    if fuel == 0 {
        lo
    } else {
        let mid = fx_div(fx_add(lo, hi), Fx::spec_from_int(2));
        if fx_mul(quartic_at(a, lo), quartic_at(a, mid)) <= 0 {
            torus_bisect_spec(a, lo, mid, (fuel - 1) as nat)
        } else {
            torus_bisect_spec(a, mid, hi, (fuel - 1) as nat)
        }
    }
}

/// The torus intersection parameter: the refined root of the first
/// bracketed sign change along the ray, if it lies in the window.
pub open spec fn torus_hit_t(p: Torus, ray: RayV, t_min: int, t_max: int) -> Option<int> {
    let a = torus_coeffs(p, ray);
    match torus_march_spec(a, t_min, t_max, TORUS_MARCH_FUEL as nat) {
        None => None,
        Some(b) => {
            let t = torus_bisect_spec(a, b.0, b.1, TORUS_BISECT_FUEL as nat);
            if t_min <= t < t_max {
                Some(t)
            } else {
                None
            }
        },
    }
}

/// The torus normal at the point reached at `t`, from the implicit
/// gradient, normalized.
pub open spec fn torus_outward(p: Torus, ray: RayV, t: int) -> V3 {
    let pt = v3_sub(ray_at(ray, t), p.center.v3());
    let coeff = fx_div(
        fx_mul(p.major.v(), p.major.v()),
        fx_sqrt(fx_add(fx_mul(pt.x, pt.x), fx_mul(pt.y, pt.y))),
    );
    v3_unit(
        V3 {
            x: fx_sub(Fx::spec_from_int(1), fx_mul(coeff, pt.x)),
            y: fx_sub(Fx::spec_from_int(1), fx_mul(coeff, pt.y)),
            z: pt.z,
        },
    )
}

fn quartic_eval(a4: Fx, a3: Fx, a2: Fx, a1: Fx, a0: Fx, t: Fx) -> (r: Fx)
    ensures
        r.v() == quartic_at((a4.v(), a3.v(), a2.v(), a1.v(), a0.v()), t.v()),
{
    a4.mul(t).add(a3).mul(t).add(a2).mul(t).add(a1).mul(t).add(a0)
}

fn torus_march(a4: Fx, a3: Fx, a2: Fx, a1: Fx, a0: Fx, t: Fx, t_max: Fx, fuel: u32) -> (r: Option<
    (Fx, Fx),
>)
    ensures
        (r is Some) == (torus_march_spec(
            (a4.v(), a3.v(), a2.v(), a1.v(), a0.v()),
            t.v(),
            t_max.v(),
            fuel as nat,
        ) is Some),
        r matches Some(b) ==> (b.0.v(), b.1.v()) == torus_march_spec(
            (a4.v(), a3.v(), a2.v(), a1.v(), a0.v()),
            t.v(),
            t_max.v(),
            fuel as nat,
        )->Some_0,
    decreases fuel,
{
    if fuel == 0 {
        None
    } else if !t.lt(t_max) {
        None
    } else {
        let t2 = t.add(Fx::from_raw(TORUS_STEP));
        let q1 = quartic_eval(a4, a3, a2, a1, a0, t);
        let q2 = quartic_eval(a4, a3, a2, a1, a0, t2);
        if q1.mul(q2).le(Fx::zero()) {
            Some((t, t2))
        } else {
            torus_march(a4, a3, a2, a1, a0, t2, t_max, fuel - 1)
        }
    }
}

fn torus_bisect(a4: Fx, a3: Fx, a2: Fx, a1: Fx, a0: Fx, lo: Fx, hi: Fx, fuel: u32) -> (r: Fx)
    ensures
        r.v() == torus_bisect_spec(
            (a4.v(), a3.v(), a2.v(), a1.v(), a0.v()),
            lo.v(),
            hi.v(),
            fuel as nat,
        ),
    decreases fuel,
{
    if fuel == 0 {
        lo
    } else {
        let mid = lo.add(hi).div(Fx::from_int(2));
        let ql = quartic_eval(a4, a3, a2, a1, a0, lo);
        let qm = quartic_eval(a4, a3, a2, a1, a0, mid);
        if ql.mul(qm).le(Fx::zero()) {
            torus_bisect(a4, a3, a2, a1, a0, lo, mid, fuel - 1)
        } else {
            torus_bisect(a4, a3, a2, a1, a0, mid, hi, fuel - 1)
        }
    }
}

impl Hittable for Torus {
    fn hit(&self, ray: &Ray, t_min: Fx, t_max: Fx) -> (r: Option<Hit>)
        ensures
            (r is Some) == (torus_hit_t(*self, ray.rv(), t_min.v(), t_max.v()) is Some),
            r matches Some(h) ==> {
                let t = torus_hit_t(*self, ray.rv(), t_min.v(), t_max.v())->Some_0;
                let outward = torus_outward(*self, ray.rv(), t);
                &&& h.t.v() == t
                &&& h.material == self.material
                &&& h.point.v3() == ray_at(ray.rv(), t)
                &&& h.front_face == (v3_dot(ray.rv().dir, outward) < 0)
                &&& h.normal.v3() == if h.front_face {
                    outward
                } else {
                    v3_neg(outward)
                }
            },
    {
        let two = Fx::from_int(2);
        let four = Fx::from_int(4);
        let oc: Vec3 = ray.origin.sub(self.center);

        let alpha = ray.direction.length_squared();
        let beta = two.mul(oc.dot(&ray.direction));
        let gamma = oc.length_squared().add(self.major.mul(self.major)).sub(
            self.minor.mul(self.minor),
        );

        let o2 = Vec3 { x: oc.x, y: oc.y, z: Fx::zero() };
        let d2 = Vec3 { x: ray.direction.x, y: ray.direction.y, z: Fx::zero() };

        let r24 = four.mul(self.major).mul(self.major);

        let a4 = alpha.mul(alpha);
        let a3 = two.mul(alpha).mul(beta);
        let a2 = two.mul(alpha).mul(gamma).add(beta.mul(beta)).sub(r24.mul(d2.length_squared()));
        let a1 = two.mul(beta.mul(gamma).sub(r24.mul(o2.dot(&d2))));
        let a0 = gamma.mul(gamma).sub(r24.mul(o2.length_squared()));

        let bracket = torus_march(a4, a3, a2, a1, a0, t_min, t_max, TORUS_MARCH_FUEL);
        let solution = match bracket {
            None => {
                return None;
            },
            Some(b) => torus_bisect(a4, a3, a2, a1, a0, b.0, b.1, TORUS_BISECT_FUEL),
        };
        if !(t_min.le(solution) && solution.lt(t_max)) {
            return None;
        }

        let pt = ray.at(solution).sub(self.center);
        let coeff = self.major.mul(self.major).div(
            pt.x().mul(pt.x()).add(pt.y().mul(pt.y())).sqrt(),
        );
        let one = Fx::from_int(1);
        let normal = Vec3::new(
            one.sub(coeff.mul(pt.x())),
            one.sub(coeff.mul(pt.y())),
            pt.z(),
        ).normalize();

        Some(Hit::with_face_normal(ray, normal, solution, self.material))
    }
}

/// The closed set of primitives a scene may hold.
#[derive(Clone, Copy, Debug, PartialEq, Eq, Structural)]
pub enum Primitive {
    Sphere(Sphere),
    Torus(Torus),
    Parallelogram(Parallelogram),
}

/// The intersection parameter and pre-orientation outward normal of one
/// primitive.
#[verifier::opaque]
pub open spec fn prim_hit_v(p: Primitive, ray: RayV, t_min: int, t_max: int) -> Option<(int, V3)> {
    match p {
        Primitive::Sphere(s) => match sphere_hit_t(s.center.v3(), s.radius.v(), ray, t_min, t_max) {
            None => None,
            Some(t) => Some((t, sphere_outward(s.center.v3(), s.radius.v(), ray, t))),
        },
        Primitive::Torus(tor) => match torus_hit_t(tor, ray, t_min, t_max) {
            None => None,
            Some(t) => Some((t, torus_outward(tor, ray, t))),
        },
        Primitive::Parallelogram(pg) => {
            let st = para_hit_spec(pg, ray, t_min, t_max);
            match st.1 {
                None => None,
                Some(n) => Some((st.0, n)),
            }
        },
    }
}

pub open spec fn prim_material(p: Primitive) -> MaterialKind {
    match p {
        Primitive::Sphere(s) => s.material,
        Primitive::Torus(t) => t.material,
        Primitive::Parallelogram(pg) => pg.material,
    }
}

impl Hittable for Primitive {
    fn hit(&self, ray: &Ray, t_min: Fx, t_max: Fx) -> (r: Option<Hit>)
        ensures
            (r is Some) == (prim_hit_v(*self, ray.rv(), t_min.v(), t_max.v()) is Some),
            r matches Some(h) ==> {
                let b = prim_hit_v(*self, ray.rv(), t_min.v(), t_max.v())->Some_0;
                &&& h.t.v() == b.0
                &&& h.material == prim_material(*self)
                &&& h.point.v3() == ray_at(ray.rv(), b.0)
                &&& h.front_face == (v3_dot(ray.rv().dir, b.1) < 0)
                &&& h.normal.v3() == if h.front_face {
                    b.1
                } else {
                    v3_neg(b.1)
                }
            },
    {
        proof {
            reveal(prim_hit_v);
        }
        match self {
            Primitive::Sphere(s) => s.hit(ray, t_min, t_max),
            Primitive::Torus(t) => t.hit(ray, t_min, t_max),
            Primitive::Parallelogram(pg) => pg.hit(ray, t_min, t_max),
        }
    }
}

/// The narrowing scan over the members from index `0` on: a member's hit
/// within the current window becomes the new best and shrinks the window
/// to end at its parameter.
pub open spec fn world_hit_loop(
    objs: Seq<Primitive>,
    ray: RayV,
    t_min: int,
    cur_max: int,
    best: Option<(int, V3, MaterialKind)>,
) -> Option<(int, V3, MaterialKind)>
    decreases objs.len(),
{
    if objs.len() == 0 {
        best
    } else {
        match prim_hit_v(objs[0], ray, t_min, cur_max) {
            None => world_hit_loop(objs.skip(1), ray, t_min, cur_max, best),
            Some(b) => world_hit_loop(
                objs.skip(1),
                ray,
                t_min,
                b.0,
                Some((b.0, b.1, prim_material(objs[0]))),
            ),
        }
    }
}

/// The closest intersection among all members over `[t_min, t_max)`.
pub open spec fn world_hit_v(objs: Seq<Primitive>, ray: RayV, t_min: int, t_max: int) -> Option<
    (int, V3, MaterialKind),
> {
    world_hit_loop(objs, ray, t_min, t_max, None)
}

/// The relation between a scan result and its model: same presence, and
/// the record's fields are determined by the model's parameter, outward
/// normal and material.
pub open spec fn world_hit_rel(
    r: Option<Hit>,
    ray: Ray,
    b: Option<(int, V3, MaterialKind)>,
) -> bool {
    &&& (r is Some) == (b is Some)
    &&& (r matches Some(h) ==> b matches Some(bb) && {
        &&& h.t.v() == bb.0
        &&& h.material == bb.2
        &&& h.point.v3() == ray_at(ray.rv(), bb.0)
        &&& h.front_face == (v3_dot(ray.rv().dir, bb.1) < 0)
        &&& h.normal.v3() == if h.front_face {
            bb.1
        } else {
            v3_neg(bb.1)
        }
    })
}

/// Scan every member and keep the closest hit: first-hit-wins would be
/// wrong, so the acceptance window's end is pulled in to each accepted
/// hit's parameter before the next member is tried.
#[verifier::rlimit(100)]
#[verifier::spinoff_prover]
pub fn world_hit(objects: &Vec<Primitive>, ray: &Ray, t_min: Fx, t_max: Fx) -> (r: Option<Hit>)
    ensures
        world_hit_rel(r, *ray, world_hit_v(objects@, ray.rv(), t_min.v(), t_max.v())),
        r matches Some(h) ==> hit_wf(h, *ray, t_min.v(), t_max.v()),
{
    let ghost total = world_hit_v(objects@, ray.rv(), t_min.v(), t_max.v());
    proof {
        assert(objects@.skip(0) =~= objects@);
    }
    let mut closest_hit: Option<Hit> = None;
    let mut cur_max = t_max;
    let ghost mut best: Option<(int, V3, MaterialKind)> = None;

    let n = objects.len();
    let mut i: usize = 0;
    while i < n
        invariant
            n == objects@.len(),
            0 <= i <= n,
            world_hit_loop(objects@.skip(i as int), ray.rv(), t_min.v(), cur_max.v(), best)
                == total,
            world_hit_rel(closest_hit, *ray, best),
            best matches Some(bb) ==> cur_max.v() == bb.0,
            best is None ==> cur_max == t_max,
            closest_hit matches Some(h) ==> hit_wf(h, *ray, t_min.v(), t_max.v()),
        decreases n - i,
    {
        let object = &objects[i];
        proof {
            assert(objects@.skip(i as int)[0] == objects@[i as int]);
        }
        let ghost prev_max = cur_max.v();
        let attempt = object.hit(ray, t_min, cur_max);
        proof {
            assert(objects@.skip(i as int).skip(1) =~= objects@.skip(i as int + 1));
        }
        match attempt {
            None => {},
            Some(hit) => {
                proof {
                    best = Some(
                        (
                            hit.t.v(),
                            prim_hit_v(objects@[i as int], ray.rv(), t_min.v(), prev_max)->Some_0.1,
                            prim_material(objects@[i as int]),
                        ),
                    );
                }
                cur_max = hit.t;
                closest_hit = Some(hit);
            },
        }
        i = i + 1;
    }
    proof {
        assert(objects@.skip(n as int).len() == 0);
        assert(world_hit_loop(objects@.skip(n as int), ray.rv(), t_min.v(), cur_max.v(), best)
            == best);
    }
    closest_hit
}

/// How the sphere intersection behaves when the window's end is pulled
/// in from `t_max` to `cur`: a surviving hit is unchanged, and a lost hit
/// had a parameter the narrowed window no longer reaches. The narrowed
/// hit also stays strictly inside its window.
proof fn lemma_sphere_coherent(center: V3, radius: int, ray: RayV, t_min: int, cur: int, t_max: int)
    requires
        cur <= t_max,
    ensures
        sphere_hit_t(center, radius, ray, t_min, cur) matches Some(t) ==> t_min <= t < cur,
        sphere_hit_t(center, radius, ray, t_min, cur) is None ==> (sphere_hit_t(
            center,
            radius,
            ray,
            t_min,
            t_max,
        ) matches Some(t) ==> t >= cur),
        sphere_hit_t(center, radius, ray, t_min, cur) matches Some(t) ==> sphere_hit_t(
            center,
            radius,
            ray,
            t_min,
            t_max,
        ) == Some(t),
{
    let oc = v3_sub(ray.orig, center);
    let a = v3_len2(ray.dir);
    let half_b = v3_dot(oc, ray.dir);
    let c = fx_sub(v3_len2(oc), fx_mul(radius, radius));
    let disc = fx_sub(fx_mul(half_b, half_b), fx_mul(a, c));
    if a == 0 || disc < 0 {
    } else {
        crate::vec3::lemma_len2_nonneg(ray.dir);
        let sqrtd = fx_sqrt(disc);
        assert(0 <= sqrtd) by {
            if disc > 0 {
                crate::fx::lemma_isqrt_props((disc * SCALE) as nat);
            }
        }
        crate::fx::lemma_fx_div_mono_num(fx_sub(-half_b, sqrtd), fx_add(-half_b, sqrtd), a);
    }
}

/// One slab candidate keeps two scans with window ends `cur <= full`
/// aligned: afterwards the states are equal, or the narrower scan has
/// still accepted nothing while the fuller scan's window end is still at
/// least `cur`.
proof fn lemma_para_cand_step(
    s: (int, Option<V3>),
    f: (int, Option<V3>),
    c0: V3,
    c1: V3,
    negd: V3,
    rhs: V3,
    t_min: int,
    nc: V3,
    cur: int,
)
    requires
        s == f || (s.0 == cur && s.1 is None && f.0 >= cur),
    ensures
        ({
            let s2 = para_cand(s, c0, c1, negd, rhs, t_min, nc);
            let f2 = para_cand(f, c0, c1, negd, rhs, t_min, nc);
            s2 == f2 || (s2.0 == cur && s2.1 is None && f2.0 >= cur)
        }),
{
}

/// One slab candidate keeps the scan's state inside its window: the best
/// parameter never grows, and an accepted one lies in `[t_min, w)`.
proof fn lemma_para_cand_window(
    s: (int, Option<V3>),
    c0: V3,
    c1: V3,
    negd: V3,
    rhs: V3,
    t_min: int,
    nc: V3,
    w: int,
)
    requires
        s.0 <= w,
        s.1 is Some ==> t_min <= s.0 < w,
    ensures
        ({
            let s2 = para_cand(s, c0, c1, negd, rhs, t_min, nc);
            s2.0 <= w && (s2.1 is Some ==> t_min <= s2.0 < w)
        }),
{
}

/// Window coherence of the slab scan, by walking its six candidates.
proof fn lemma_para_coherent(p: Parallelogram, ray: RayV, t_min: int, cur: int, t_max: int)
    requires
        cur <= t_max,
    ensures
        para_hit_spec(p, ray, t_min, cur).1 is Some ==> t_min <= para_hit_spec(
            p,
            ray,
            t_min,
            cur,
        ).0 < cur,
        para_hit_spec(p, ray, t_min, cur).1 is None ==> (para_hit_spec(p, ray, t_min, t_max).1
            is Some ==> para_hit_spec(p, ray, t_min, t_max).0 >= cur),
        para_hit_spec(p, ray, t_min, cur).1 is Some ==> para_hit_spec(p, ray, t_min, t_max)
            == para_hit_spec(p, ray, t_min, cur),
{
    let negd = v3_neg(ray.dir);
    let base = v3_sub(ray.orig, p.corner_v());

    let s0 = (cur, None::<V3>);
    let f0 = (t_max, None::<V3>);
    let s1 = para_cand(s0, p.av(), p.aw(), negd, base, t_min, v3_neg(p.nvw()));
    let f1 = para_cand(f0, p.av(), p.aw(), negd, base, t_min, v3_neg(p.nvw()));
    lemma_para_cand_step(s0, f0, p.av(), p.aw(), negd, base, t_min, v3_neg(p.nvw()), cur);
    lemma_para_cand_window(s0, p.av(), p.aw(), negd, base, t_min, v3_neg(p.nvw()), cur);

    let rhs2 = v3_sub(base, p.au());
    let s2 = para_cand(s1, p.av(), p.aw(), negd, rhs2, t_min, p.nvw());
    let f2 = para_cand(f1, p.av(), p.aw(), negd, rhs2, t_min, p.nvw());
    lemma_para_cand_step(s1, f1, p.av(), p.aw(), negd, rhs2, t_min, p.nvw(), cur);
    lemma_para_cand_window(s1, p.av(), p.aw(), negd, rhs2, t_min, p.nvw(), cur);

    let s3 = para_cand(s2, p.aw(), p.au(), negd, base, t_min, v3_neg(p.nuw()));
    let f3 = para_cand(f2, p.aw(), p.au(), negd, base, t_min, v3_neg(p.nuw()));
    lemma_para_cand_step(s2, f2, p.aw(), p.au(), negd, base, t_min, v3_neg(p.nuw()), cur);
    lemma_para_cand_window(s2, p.aw(), p.au(), negd, base, t_min, v3_neg(p.nuw()), cur);

    let rhs4 = v3_sub(base, p.av());
    let s4 = para_cand(s3, p.aw(), p.au(), negd, rhs4, t_min, p.nuw());
    let f4 = para_cand(f3, p.aw(), p.au(), negd, rhs4, t_min, p.nuw());
    lemma_para_cand_step(s3, f3, p.aw(), p.au(), negd, rhs4, t_min, p.nuw(), cur);
    lemma_para_cand_window(s3, p.aw(), p.au(), negd, rhs4, t_min, p.nuw(), cur);

    let s5 = para_cand(s4, p.au(), p.av(), negd, base, t_min, v3_neg(p.nuv()));
    let f5 = para_cand(f4, p.au(), p.av(), negd, base, t_min, v3_neg(p.nuv()));
    lemma_para_cand_step(s4, f4, p.au(), p.av(), negd, base, t_min, v3_neg(p.nuv()), cur);
    lemma_para_cand_window(s4, p.au(), p.av(), negd, base, t_min, v3_neg(p.nuv()), cur);

    let rhs6 = v3_sub(base, p.aw());
    lemma_para_cand_step(s5, f5, p.au(), p.av(), negd, rhs6, t_min, p.nuv(), cur);
    lemma_para_cand_window(s5, p.au(), p.av(), negd, rhs6, t_min, p.nuv(), cur);
}

/// A bracket reported by the root march starts at a grid point between
/// the start and the window's end, and spans exactly one step.
proof fn lemma_march_bracket(a: (int, int, int, int, int), t: int, w: int, fuel: nat)
    requires
        -(CAP as int) <= t <= CAP as int,
    ensures
        torus_march_spec(a, t, w, fuel) matches Some(b) ==> {
            &&& t <= b.0 < w
            &&& -(CAP as int) <= b.0 <= CAP as int
            &&& b.0 <= t + fuel * (TORUS_STEP as int)
            &&& b.1 == fx_add(b.0, TORUS_STEP as int)
        },
    decreases fuel,
{
    if fuel == 0 {
    } else if t >= w {
    } else {
        let t2 = fx_add(t, TORUS_STEP as int);
        if fx_mul(quartic_at(a, t), quartic_at(a, t2)) <= 0 {
        } else {
            lemma_march_bracket(a, t2, w, (fuel - 1) as nat);
        }
    }
}

/// Marching with a nearer window end either finds the very same bracket
/// or stops empty-handed because every bracket starts beyond that end.
proof fn lemma_march_coherent(a: (int, int, int, int, int), t: int, cur: int, w: int, fuel: nat)
    requires
        cur <= w,
        -(CAP as int) <= t <= CAP as int,
    ensures
        torus_march_spec(a, t, cur, fuel) is None ==> (torus_march_spec(a, t, w, fuel)
            matches Some(b) ==> b.0 >= cur),
        torus_march_spec(a, t, cur, fuel) matches Some(b) ==> torus_march_spec(a, t, w, fuel)
            == Some(b),
    decreases fuel,
{
    if fuel == 0 {
    } else if t >= cur {
        lemma_march_bracket(a, t, w, fuel);
    } else {
        let t2 = fx_add(t, TORUS_STEP as int);
        if fx_mul(quartic_at(a, t), quartic_at(a, t2)) <= 0 {
        } else {
            lemma_march_coherent(a, t2, cur, w, (fuel - 1) as nat);
        }
    }
}

/// Bisection keeps its estimate inside the original bracket, for
/// brackets far below the saturation range.
proof fn lemma_bisect_range(a: (int, int, int, int, int), lo: int, hi: int, fuel: nat)
    requires
        0 <= lo <= hi,
        hi <= 0x100_0000_0000,
    ensures
        lo <= torus_bisect_spec(a, lo, hi, fuel) <= hi,
    decreases fuel,
{
    if fuel == 0 {
    } else {
        let sum = fx_add(lo, hi);
        assert(sum == lo + hi);
        let mid = fx_div(sum, Fx::spec_from_int(2));
        assert((lo + hi) * SCALE == (2 * SCALE) * ((lo + hi) / 2) + ((lo + hi) % 2) * SCALE)
            by (nonlinear_arith);
        vstd::arithmetic::div_mod::lemma_fundamental_div_mod_converse(
            (lo + hi) * SCALE,
            2 * SCALE,
            (lo + hi) / 2,
            ((lo + hi) % 2) * SCALE,
        );
        assert(tdiv((lo + hi) * SCALE, 2 * (SCALE as int)) == (lo + hi) / 2);
        assert(lo <= (lo + hi) / 2 <= hi);
        assert(lo <= mid <= hi);
        if fx_mul(quartic_at(a, lo), quartic_at(a, mid)) <= 0 {
            lemma_bisect_range(a, lo, mid, (fuel - 1) as nat);
        } else {
            lemma_bisect_range(a, mid, hi, (fuel - 1) as nat);
        }
    }
}

/// Window coherence of the torus root search.
proof fn lemma_torus_coherent(tor: Torus, ray: RayV, t_min: int, cur: int, t_max: int)
    requires
        cur <= t_max,
        0 <= t_min <= 0x40_0000_0000,
    ensures
        torus_hit_t(tor, ray, t_min, cur) matches Some(t) ==> t_min <= t < cur,
        torus_hit_t(tor, ray, t_min, cur) is None ==> (torus_hit_t(tor, ray, t_min, t_max)
            matches Some(t) ==> t >= cur),
        torus_hit_t(tor, ray, t_min, cur) matches Some(t) ==> torus_hit_t(tor, ray, t_min, t_max)
            == Some(t),
{
    let a = torus_coeffs(tor, ray);
    let fuel = TORUS_MARCH_FUEL as nat;
    lemma_march_coherent(a, t_min, cur, t_max, fuel);
    lemma_march_bracket(a, t_min, cur, fuel);
    lemma_march_bracket(a, t_min, t_max, fuel);
    match torus_march_spec(a, t_min, cur, fuel) {
        None => {
            match torus_march_spec(a, t_min, t_max, fuel) {
                None => {},
                Some(b) => {
                    assert(b.1 == b.0 + TORUS_STEP as int);
                    lemma_bisect_range(a, b.0, b.1, TORUS_BISECT_FUEL as nat);
                },
            }
        },
        Some(b) => {
            assert(b.1 == b.0 + TORUS_STEP as int);
            lemma_bisect_range(a, b.0, b.1, TORUS_BISECT_FUEL as nat);
        },
    }
}

/// If every member misses over the window, so does the whole scan.
pub proof fn lemma_world_all_miss(objs: Seq<Primitive>, ray: RayV, t_min: int, t_max: int)
    requires
        forall|i: int|
            0 <= i < objs.len() ==> #[trigger] prim_hit_v(objs[i], ray, t_min, t_max) is None,
    ensures
        world_hit_v(objs, ray, t_min, t_max) is None,
    decreases objs.len(),
{
    if objs.len() == 0 {
    } else {
        assert(prim_hit_v(objs[0], ray, t_min, t_max) is None);
        assert forall|i: int|
            0 <= i < objs.skip(1).len() implies #[trigger] prim_hit_v(
            objs.skip(1)[i],
            ray,
            t_min,
            t_max,
        ) is None by {
            assert(objs.skip(1)[i] == objs[i + 1]);
        }
        lemma_world_all_miss(objs.skip(1), ray, t_min, t_max);
    }
}

/// Window coherence of every primitive: narrowing the window's end to
/// `cur` keeps a hit below `cur` unchanged and only ever drops hits at
/// or beyond `cur`; a reported hit lies strictly inside its window.
proof fn lemma_prim_coherent(p: Primitive, ray: RayV, t_min: int, cur: int, t_max: int)
    requires
        cur <= t_max,
        0 <= t_min <= 0x40_0000_0000,
    ensures
        prim_hit_v(p, ray, t_min, cur) matches Some(b) ==> t_min <= b.0 < cur,
        prim_hit_v(p, ray, t_min, cur) is None ==> (prim_hit_v(p, ray, t_min, t_max)
            matches Some(b) ==> b.0 >= cur),
        prim_hit_v(p, ray, t_min, cur) matches Some(b) ==> prim_hit_v(p, ray, t_min, t_max)
            == Some(b),
{
    reveal(prim_hit_v);
    match p {
        Primitive::Sphere(s) => lemma_sphere_coherent(
            s.center.v3(),
            s.radius.v(),
            ray,
            t_min,
            cur,
            t_max,
        ),
        Primitive::Torus(t) => lemma_torus_coherent(t, ray, t_min, cur, t_max),
        Primitive::Parallelogram(pg) => lemma_para_coherent(pg, ray, t_min, cur, t_max),
    }
}

/// The narrowing scan, resumed from any window end and best-so-far, never
/// reports a parameter above its window end, nor above any member's own
/// hit over the full window.
proof fn lemma_loop_minimal(
    objs: Seq<Primitive>,
    ray: RayV,
    t_min: int,
    cur: int,
    best: Option<(int, V3, MaterialKind)>,
    t_max: int,
)
    requires
        0 <= t_min <= 0x40_0000_0000,
        cur <= t_max,
        best matches Some(bb) ==> bb.0 <= cur,
    ensures
        world_hit_loop(objs, ray, t_min, cur, best) matches Some(b) ==> b.0 <= cur,
        world_hit_loop(objs, ray, t_min, cur, best) matches Some(b) ==> forall|i: int|
            0 <= i < objs.len() ==> (#[trigger] prim_hit_v(objs[i], ray, t_min, t_max)
                matches Some(bi) ==> b.0 <= bi.0),
    decreases objs.len(),
{
    if objs.len() == 0 {
    } else {
        let first = objs[0];
        lemma_prim_coherent(first, ray, t_min, cur, t_max);
        match prim_hit_v(first, ray, t_min, cur) {
            None => {
                lemma_loop_minimal(objs.skip(1), ray, t_min, cur, best, t_max);
                let r = world_hit_loop(objs, ray, t_min, cur, best);
                if r is Some {
                    let b = r->Some_0;
                    assert forall|i: int|
                        0 <= i < objs.len() implies (#[trigger] prim_hit_v(
                        objs[i],
                        ray,
                        t_min,
                        t_max,
                    ) matches Some(bi) ==> b.0 <= bi.0) by {
                        if i > 0 {
                            assert(objs.skip(1)[i - 1] == objs[i]);
                        }
                    }
                }
            },
            Some(b1) => {
                lemma_loop_minimal(
                    objs.skip(1),
                    ray,
                    t_min,
                    b1.0,
                    Some((b1.0, b1.1, prim_material(first))),
                    t_max,
                );
                let r = world_hit_loop(objs, ray, t_min, cur, best);
                if r is Some {
                    let b = r->Some_0;
                    assert forall|i: int|
                        0 <= i < objs.len() implies (#[trigger] prim_hit_v(
                        objs[i],
                        ray,
                        t_min,
                        t_max,
                    ) matches Some(bi) ==> b.0 <= bi.0) by {
                        if i > 0 {
                            assert(objs.skip(1)[i - 1] == objs[i]);
                        }
                    }
                }
            },
        }
    }
}

/// The scan reports the minimum-parameter intersection: no member's own
/// hit over the same window comes earlier along the ray. First-hit-wins
/// would violate this; the narrowing scan satisfies it. The near bound
/// must be non-negative and small enough that the torus root march's
/// whole grid stays far below the saturation range.
pub proof fn lemma_world_hit_minimal(objs: Seq<Primitive>, ray: RayV, t_min: int, t_max: int)
    requires
        0 <= t_min <= 0x40_0000_0000,
    ensures
        world_hit_v(objs, ray, t_min, t_max) matches Some(b) ==> forall|i: int|
            0 <= i < objs.len() ==> (#[trigger] prim_hit_v(objs[i], ray, t_min, t_max)
                matches Some(bi) ==> b.0 <= bi.0),
{
    lemma_loop_minimal(objs, ray, t_min, t_max, None, t_max);
}

/// A scan that starts with a best hit in hand always reports one.
proof fn lemma_loop_some_persists(
    objs: Seq<Primitive>,
    ray: RayV,
    t_min: int,
    cur: int,
    best: Option<(int, V3, MaterialKind)>,
)
    requires
        best is Some,
    ensures
        world_hit_loop(objs, ray, t_min, cur, best) is Some,
    decreases objs.len(),
{
    if objs.len() == 0 {
    } else {
        match prim_hit_v(objs[0], ray, t_min, cur) {
            None => lemma_loop_some_persists(objs.skip(1), ray, t_min, cur, best),
            Some(b) => lemma_loop_some_persists(
                objs.skip(1),
                ray,
                t_min,
                b.0,
                Some((b.0, b.1, prim_material(objs[0]))),
            ),
        }
    }
}

/// If the scan reports nothing, every member misses over the full
/// window: together with `lemma_world_all_miss`, the scan reports a hit
/// exactly when some member is struck.
pub proof fn lemma_world_none_all_miss(objs: Seq<Primitive>, ray: RayV, t_min: int, t_max: int)
    requires
        world_hit_v(objs, ray, t_min, t_max) is None,
    ensures
        forall|i: int|
            0 <= i < objs.len() ==> #[trigger] prim_hit_v(objs[i], ray, t_min, t_max) is None,
    decreases objs.len(),
{
    if objs.len() == 0 {
    } else {
        match prim_hit_v(objs[0], ray, t_min, t_max) {
            None => {
                lemma_world_none_all_miss(objs.skip(1), ray, t_min, t_max);
                assert forall|i: int|
                    0 <= i < objs.len() implies #[trigger] prim_hit_v(
                    objs[i],
                    ray,
                    t_min,
                    t_max,
                ) is None by {
                    if i > 0 {
                        assert(objs.skip(1)[i - 1] == objs[i]);
                    }
                }
            },
            Some(b) => {
                lemma_loop_some_persists(
                    objs.skip(1),
                    ray,
                    t_min,
                    b.0,
                    Some((b.0, b.1, prim_material(objs[0]))),
                );
            },
        }
    }
}

impl Hittable for Vec<Primitive> {
    fn hit(&self, ray: &Ray, t_min: Fx, t_max: Fx) -> (r: Option<Hit>)
        ensures
            world_hit_rel(r, *ray, world_hit_v(self@, ray.rv(), t_min.v(), t_max.v())),
    {
        world_hit(self, ray, t_min, t_max)
    }
}

} // verus!

