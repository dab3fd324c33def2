//! Three-component vectors over the fixed-point scalar.
//!
//! `V3` is the mathematical image of a vector: its three raw unit counts.
//! Every executable operation on [`Vec3`] is pinned to a spec function on
//! `V3` that composes the scalar operations of [`crate::fx`].

use crate::fx::{fx_add, fx_cos, fx_div, fx_mul, fx_sqrt, fx_sub, abs_i, Fx, TAU_FX};
use crate::rng::{rng_out, rng_step, rng_step2, unit_from, Rng};
use vstd::prelude::*;

verus! {

/// The model of a vector: raw unit counts of the three components.
pub struct V3 {
    pub x: int,
    pub y: int,
    pub z: int,
}

pub open spec fn v3_add(a: V3, b: V3) -> V3 {
    V3 { x: fx_add(a.x, b.x), y: fx_add(a.y, b.y), z: fx_add(a.z, b.z) }
}

pub open spec fn v3_sub(a: V3, b: V3) -> V3 {
    V3 { x: fx_sub(a.x, b.x), y: fx_sub(a.y, b.y), z: fx_sub(a.z, b.z) }
}

pub open spec fn v3_neg(a: V3) -> V3 {
    V3 { x: -a.x, y: -a.y, z: -a.z }
}

/// Component-wise scaling by the raw scalar `s`.
pub open spec fn v3_scale(a: V3, s: int) -> V3 {
    V3 { x: fx_mul(a.x, s), y: fx_mul(a.y, s), z: fx_mul(a.z, s) }
}

/// Division by a scalar, computed as scaling by its reciprocal.
pub open spec fn v3_div_s(a: V3, s: int) -> V3 {
    v3_scale(a, fx_div(Fx::spec_from_int(1), s))
}

/// Component-wise (Hadamard) product, the attenuation product on colours.
pub open spec fn v3_cmul(a: V3, b: V3) -> V3 {
    V3 { x: fx_mul(a.x, b.x), y: fx_mul(a.y, b.y), z: fx_mul(a.z, b.z) }
}

pub open spec fn v3_dot(a: V3, b: V3) -> int {
    fx_add(fx_add(fx_mul(a.x, b.x), fx_mul(a.y, b.y)), fx_mul(a.z, b.z))
}

pub open spec fn v3_cross(a: V3, b: V3) -> V3 {
    V3 {
        x: fx_sub(fx_mul(a.y, b.z), fx_mul(a.z, b.y)),
        y: fx_sub(fx_mul(a.z, b.x), fx_mul(a.x, b.z)),
        z: fx_sub(fx_mul(a.x, b.y), fx_mul(a.y, b.x)),
    }
}

pub open spec fn v3_len2(a: V3) -> int {
    v3_dot(a, a)
}

pub open spec fn v3_len(a: V3) -> int {
    fx_sqrt(v3_len2(a))
}

pub open spec fn v3_unit(a: V3) -> V3 {
    v3_div_s(a, v3_len(a))
}

/// Raw-unit threshold below which a component counts as zero
/// (about `1e-8` of a unit).
pub const NEAR_EPS: i64 = 42;

pub open spec fn v3_near_zero(a: V3) -> bool {
    abs_i(a.x) < NEAR_EPS as int && abs_i(a.y) < NEAR_EPS as int && abs_i(a.z) < NEAR_EPS as int
}

/// Dotting against a negated vector negates the dot product.
pub proof fn lemma_dot_neg(a: V3, b: V3)
    ensures
        v3_dot(a, v3_neg(b)) == -v3_dot(a, b),
{
    crate::fx::lemma_mul_neg(a.x, b.x);
    crate::fx::lemma_mul_neg(a.y, b.y);
    crate::fx::lemma_mul_neg(a.z, b.z);
}

/// A squared length is never negative.
pub proof fn lemma_len2_nonneg(a: V3)
    ensures
        0 <= v3_len2(a),
{
    crate::fx::lemma_mul_self_nonneg(a.x);
    crate::fx::lemma_mul_self_nonneg(a.y);
    crate::fx::lemma_mul_self_nonneg(a.z);
}

/// A sample in `[-1, 1)` built from the draw word `u`.
pub open spec fn sym_unit_from(u: u64) -> int {
    fx_sub(fx_mul(Fx::spec_from_int(2), unit_from(u)), Fx::spec_from_int(1))
}

/// The unit-sphere direction drawn from state `s` (two draws).
pub open spec fn unit_vec_from(s: u64) -> V3 {
    let zv = sym_unit_from(rng_out(s));
    let sin_theta = fx_sqrt(fx_sub(Fx::spec_from_int(1), fx_mul(zv, zv)));
    let phi = fx_mul(TAU_FX as int, unit_from(rng_out(rng_step(s))));
    let cp = fx_cos(phi);
    let sp = fx_sqrt(fx_sub(Fx::spec_from_int(1), fx_mul(cp, cp)));
    V3 { x: fx_mul(sin_theta, cp), y: fx_mul(sin_theta, sp), z: zv }
}

/// The in-sphere sample drawn from state `s` (three draws: a radius, then
/// a direction).
pub open spec fn in_sphere_from(s: u64) -> V3 {
    v3_scale(unit_vec_from(rng_step(s)), unit_from(rng_out(s)))
}

/// The in-disk sample drawn from state `s` (two draws).
pub open spec fn in_disk_from(s: u64) -> V3 {
    let xv = sym_unit_from(rng_out(s));
    let yv = fx_sqrt(fx_sub(Fx::spec_from_int(1), fx_mul(xv, xv)));
    let rv = unit_from(rng_out(rng_step(s)));
    V3 { x: fx_mul(rv, xv), y: fx_mul(rv, yv), z: 0 }
}

/// A vector of three fixed-point components; also used for points and
/// colours.
#[derive(Clone, Copy, Debug, PartialEq, Eq, Structural)]
pub struct Vec3 {
    pub x: Fx,
    pub y: Fx,
    pub z: Fx,
}

impl Vec3 {
    /// The model of this vector.
    pub open spec fn v3(self) -> V3 {
        V3 { x: self.x.v(), y: self.y.v(), z: self.z.v() }
    }

    pub fn new(x: Fx, y: Fx, z: Fx) -> (r: Vec3)
        ensures
            r.v3() == (V3 { x: x.v(), y: y.v(), z: z.v() }),
    {
        Vec3 { x, y, z }
    }

    /// The zero vector.
    pub fn zero() -> (r: Vec3)
        ensures
            r.v3() == (V3 { x: 0, y: 0, z: 0 }),
    {
        Vec3 { x: Fx::zero(), y: Fx::zero(), z: Fx::zero() }
    }

    pub fn x(&self) -> (r: Fx)
        ensures
            r.v() == self.v3().x,
    {
        self.x
    }

    pub fn y(&self) -> (r: Fx)
        ensures
            r.v() == self.v3().y,
    {
        self.y
    }

    pub fn z(&self) -> (r: Fx)
        ensures
            r.v() == self.v3().z,
    {
        self.z
    }

    pub fn add(self, o: Vec3) -> (r: Vec3)
        ensures
            r.v3() == v3_add(self.v3(), o.v3()),
    {
        Vec3 { x: self.x.add(o.x), y: self.y.add(o.y), z: self.z.add(o.z) }
    }

    pub fn sub(self, o: Vec3) -> (r: Vec3)
        ensures
            r.v3() == v3_sub(self.v3(), o.v3()),
    {
        Vec3 { x: self.x.sub(o.x), y: self.y.sub(o.y), z: self.z.sub(o.z) }
    }

    pub fn neg(self) -> (r: Vec3)
        ensures
            r.v3() == v3_neg(self.v3()),
    {
        Vec3 { x: self.x.neg(), y: self.y.neg(), z: self.z.neg() }
    }

    /// Scale every component by `s`.
    pub fn scale(self, s: Fx) -> (r: Vec3)
        ensures
            r.v3() == v3_scale(self.v3(), s.v()),
    {
        Vec3 { x: self.x.mul(s), y: self.y.mul(s), z: self.z.mul(s) }
    }

    /// Divide every component by `s`, as scaling by the reciprocal.
    pub fn div_scale(self, s: Fx) -> (r: Vec3)
        ensures
            r.v3() == v3_div_s(self.v3(), s.v()),
    {
        let inv = Fx::from_int(1).div(s);
        self.scale(inv)
    }

    /// Component-wise product.
    pub fn cmul(self, o: Vec3) -> (r: Vec3)
        ensures
            r.v3() == v3_cmul(self.v3(), o.v3()),
    {
        Vec3 { x: self.x.mul(o.x), y: self.y.mul(o.y), z: self.z.mul(o.z) }
    }

    pub fn dot(&self, other: &Vec3) -> (r: Fx)
        ensures
            r.v() == v3_dot(self.v3(), other.v3()),
    {
        self.x.mul(other.x).add(self.y.mul(other.y)).add(self.z.mul(other.z))
    }

    pub fn cross(&self, other: &Vec3) -> (r: Vec3)
        ensures
            r.v3() == v3_cross(self.v3(), other.v3()),
    {
        Vec3 {
            x: self.y.mul(other.z).sub(self.z.mul(other.y)),
            y: self.z.mul(other.x).sub(self.x.mul(other.z)),
            z: self.x.mul(other.y).sub(self.y.mul(other.x)),
        }
    }

    pub fn length_squared(&self) -> (r: Fx)
        ensures
            r.v() == v3_len2(self.v3()),
    {
        self.dot(self)
    }

    pub fn length(&self) -> (r: Fx)
        ensures
            r.v() == v3_len(self.v3()),
    {
        self.length_squared().sqrt()
    }

    pub fn normalize(self) -> (r: Vec3)
        ensures
            r.v3() == v3_unit(self.v3()),
    {
        self.div_scale(self.length())
    }

    /// Whether every component is below the degeneracy threshold in
    /// magnitude.
    pub fn near_zero(&self) -> (r: bool)
        ensures
            r == v3_near_zero(self.v3()),
    {
        let eps = Fx::from_raw(NEAR_EPS);
        self.x.abs().lt(eps) && self.y.abs().lt(eps) && self.z.abs().lt(eps)
    }

    /// A direction on the unit sphere: a vertical coordinate and an
    /// azimuth drawn from `rng`.
    pub fn random_unit_vec(rng: &mut Rng) -> (r: Vec3)
        ensures
            final(rng).s() == rng_step2(old(rng).s()),
            r.v3() == unit_vec_from(old(rng).s()),
    {
        let one = Fx::from_int(1);
        let two = Fx::from_int(2);
        let u1 = rng.next_unit();
        let z = two.mul(u1).sub(one);
        let sin_theta = one.sub(z.mul(z)).sqrt();
        let u2 = rng.next_unit();
        let phi = Fx::from_raw(TAU_FX).mul(u2);
        let cos_phi = phi.cos();
        let sin_phi = one.sub(cos_phi.mul(cos_phi)).sqrt();
        Vec3 { x: sin_theta.mul(cos_phi), y: sin_theta.mul(sin_phi), z }
    }

    /// A point inside the unit sphere: a radius, then a direction.
    pub fn random_in_unit_sphere(rng: &mut Rng) -> (r: Vec3)
        ensures
            final(rng).s() == rng_step(rng_step2(old(rng).s())),
            r.v3() == in_sphere_from(old(rng).s()),
    {
        let radius = rng.next_unit();
        Vec3::random_unit_vec(rng).scale(radius)
    }

    /// A point inside the unit disk of the xy-plane.
    pub fn random_in_unit_disk(rng: &mut Rng) -> (r: Vec3)
        ensures
            final(rng).s() == rng_step2(old(rng).s()),
            r.v3() == in_disk_from(old(rng).s()),
    {
        let one = Fx::from_int(1);
        let two = Fx::from_int(2);
        let u1 = rng.next_unit();
        let x = two.mul(u1).sub(one);
        let y = one.sub(x.mul(x)).sqrt();
        let radius = rng.next_unit();
        Vec3 { x: radius.mul(x), y: radius.mul(y), z: Fx::zero() }
    }
}

} // verus!
