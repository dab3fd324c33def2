//! A path tracer with a verified rendering kernel.
//!
//! Real-valued quantities are modelled by the fixed-point scalar
//! [`fx::Fx`], so every geometric and radiometric computation carries an
//! exact contract over the integer model. The kernel — vector algebra,
//! primitive intersection, material scattering, the recursive colour
//! integrator and the chunked pixel scheduler — is verified; reading the
//! scene, detecting cores, spreading chunks over threads and encoding the
//! image are left to the surrounding program.

pub mod collision;
pub mod fx;
pub mod render;
pub mod rng;
pub mod vec3;

pub use collision::Ray;
pub use vec3::Vec3;

use crate::collision::RayV;
use crate::fx::{fx_cos, fx_div, fx_mul, fx_sqrt, fx_sub, tdiv, Fx, PI_FX, SCALE};
use crate::rng::{rng_step2, Rng};
use crate::vec3::{
    in_disk_from, v3_add, v3_cross, v3_div_s, v3_scale, v3_sub, v3_unit, V3,
};
use vstd::prelude::*;

verus! {

/// A colour is a vector of three channel intensities.
pub type Color = Vec3;

/// A point in space is a vector from the origin.
pub type Point3 = Vec3;

/// One output pixel: three 8-bit channels.
#[derive(Clone, Copy, Debug, PartialEq, Eq, Structural)]
pub struct Rgb8 {
    pub r: u8,
    pub g: u8,
    pub b: u8,
}

/// The channel value clamped into `[0, 0.999]`, scaled by 256, truncated,
/// and capped at the largest byte as a saturating narrowing would do.
pub open spec fn intify_spec(x: int) -> int {
    let hi = fx_div(Fx::spec_from_int(999), Fx::spec_from_int(1000));
    let c = if x < 0 {
        0
    } else if x > hi {
        hi
    } else {
        x
    };
    let q = tdiv(fx_mul(Fx::spec_from_int(256), c), SCALE as int);
    if q > 255 {
        255
    } else {
        q
    }
}

/// The three channel bytes of an accumulated colour averaged over
/// `samples` rays and gamma-corrected with exponent one half.
pub open spec fn rgb_spec(c: V3, samples: int) -> (int, int, int) {
    let scale = fx_div(Fx::spec_from_int(1), Fx::spec_from_int(samples));
    (
        intify_spec(fx_sqrt(fx_mul(c.x, scale))),
        intify_spec(fx_sqrt(fx_mul(c.y, scale))),
        intify_spec(fx_sqrt(fx_mul(c.z, scale))),
    )
}

fn intify(x: Fx) -> (r: u8)
    ensures
        r as int == intify_spec(x.v()),
{
    let hi = Fx::from_ratio(999, 1000);
    proof {
        assert(Fx::spec_from_int(999) >= 0 && Fx::spec_from_int(1000) >= 0);
        crate::fx::lemma_tdiv_mono(0, Fx::spec_from_int(999) * SCALE as int, Fx::spec_from_int(1000));
        assert(hi.v() >= 0);
    }
    let c = x.clamp(Fx::zero(), hi);
    let y = Fx::from_int(256).mul(c);
    proof {
        crate::fx::lemma_mul_nonneg(Fx::spec_from_int(256), c.v());
        crate::fx::lemma_tdiv_mono(0, y.v(), SCALE as int);
    }
    let t: i64 = y.trunc();
    if t > 255 {
        255
    } else {
        t as u8
    }
}

/// Average a summed colour over its sample count, gamma-correct each
/// channel by a square root, and quantize to bytes.
pub fn color_to_rgb(pixel_color: Color, samples_per_pixel: u32) -> (r: Rgb8)
    requires
        1 <= samples_per_pixel <= 0x4000_0000,
    ensures
        (r.r as int, r.g as int, r.b as int) == rgb_spec(
            pixel_color.v3(),
            samples_per_pixel as int,
        ),
{
    let scale = Fx::from_int(1).div(Fx::from_int(samples_per_pixel as i64));
    let rr = pixel_color.x().mul(scale).sqrt();
    let gg = pixel_color.y().mul(scale).sqrt();
    let bb = pixel_color.z().mul(scale).sqrt();
    Rgb8 { r: intify(rr), g: intify(gg), b: intify(bb) }
}

/// The tangent of `x`, for `x` in `(0, pi/2)`, from the cosine
/// approximation.
pub open spec fn tan_spec(x: int) -> int {
    fx_div(
        fx_cos(fx_sub(fx_div(PI_FX as int, Fx::spec_from_int(2)), x)),
        fx_cos(x),
    )
}

fn tan_fx(x: Fx) -> (r: Fx)
    ensures
        r.v() == tan_spec(x.v()),
{
    let half_pi = Fx::from_raw(PI_FX).div(Fx::from_int(2));
    half_pi.sub(x).cos().div(x.cos())
}

/// The viewing geometry: an eye point and a focus rectangle from which
/// sample rays leave.
#[derive(Clone, Copy, Debug, PartialEq, Eq, Structural)]
pub struct Camera {
    pub origin: Point3,
    pub lower_left_corner: Point3,
    pub horizontal: Vec3,
    pub vertical: Vec3,
    pub u: Vec3,
    pub v: Vec3,
    pub w: Vec3,
    pub lens_radius: Fx,
}

/// Radians of a degree count.
pub open spec fn to_radians_spec(deg: int) -> int {
    fx_mul(deg, fx_div(PI_FX as int, Fx::spec_from_int(180)))
}

impl Camera {
    /// Build the viewing geometry from an eye point, a look-at point, an
    /// up direction, a vertical field of view in degrees, the aspect
    /// ratio, the aperture and the focus distance.
    pub fn new(
        look_from: Point3,
        look_at: Point3,
        vup: Vec3,
        vertical_fov: Fx,
        aspect_ratio: Fx,
        aperture: Fx,
        focus_dist: Fx,
    ) -> (r: Camera)
        ensures
            ({
                let theta = to_radians_spec(vertical_fov.v());
                let h = tan_spec(fx_div(theta, Fx::spec_from_int(2)));
                let viewport_height = fx_mul(Fx::spec_from_int(2), h);
                let viewport_width = fx_mul(aspect_ratio.v(), viewport_height);
                let wv = v3_unit(v3_sub(look_from.v3(), look_at.v3()));
                let uv = v3_cross(vup.v3(), wv);
                let vv = v3_cross(wv, uv);
                let horizontal = v3_scale(uv, fx_mul(focus_dist.v(), viewport_width));
                let vertical = v3_scale(vv, fx_mul(focus_dist.v(), viewport_height));
                &&& r.origin == look_from
                &&& r.w.v3() == wv
                &&& r.u.v3() == uv
                &&& r.v.v3() == vv
                &&& r.horizontal.v3() == horizontal
                &&& r.vertical.v3() == vertical
                &&& r.lower_left_corner.v3() == v3_sub(
                    v3_sub(
                        v3_sub(look_from.v3(), v3_div_s(horizontal, Fx::spec_from_int(2))),
                        v3_div_s(vertical, Fx::spec_from_int(2)),
                    ),
                    v3_scale(wv, focus_dist.v()),
                )
                &&& r.lens_radius.v() == fx_div(aperture.v(), Fx::spec_from_int(2))
            }),
    {
        let two = Fx::from_int(2);
        let theta = vertical_fov.mul(Fx::from_raw(PI_FX).div(Fx::from_int(180)));
        let h = tan_fx(theta.div(two));

        let viewport_height = two.mul(h);
        let viewport_width = aspect_ratio.mul(viewport_height);

        let w = look_from.sub(look_at).normalize();
        let u = vup.cross(&w);
        let v = w.cross(&u);

        let origin = look_from;
        let horizontal = u.scale(focus_dist.mul(viewport_width));
        let vertical = v.scale(focus_dist.mul(viewport_height));
        let lower_left_corner = origin.sub(horizontal.div_scale(two)).sub(
            vertical.div_scale(two),
        ).sub(w.scale(focus_dist));

        let lens_radius = aperture.div(two);

        Camera { origin, lower_left_corner, horizontal, vertical, u, v, w, lens_radius }
    }

    /// The sample ray toward viewport coordinates `(s, t)`, its origin
    /// offset within the lens disk.
    pub fn get_ray(&self, s: Fx, t: Fx, rng: &mut Rng) -> (r: Ray)
        ensures
            final(rng).s() == rng_step2(old(rng).s()),
            r.rv() == Camera::get_ray_spec(*self, s.v(), t.v(), old(rng).s()),
    {
        let random = Vec3::random_in_unit_disk(rng).scale(self.lens_radius);
        let on_plane = self.u.scale(random.x()).add(self.v.scale(random.y()));

        Ray {
            origin: self.origin.add(on_plane),
            direction: self.lower_left_corner.add(self.horizontal.scale(s)).add(
                self.vertical.scale(t),
            ).sub(self.origin).sub(on_plane),
        }
    }

    /// The model of the sample ray drawn from state `s0`.
    pub open spec fn get_ray_spec(c: Camera, sv: int, tv: int, s0: u64) -> RayV {
        let random = v3_scale(in_disk_from(s0), c.lens_radius.v());
        let on_plane = v3_add(v3_scale(c.u.v3(), random.x), v3_scale(c.v.v3(), random.y));
        RayV {
            orig: v3_add(c.origin.v3(), on_plane),
            dir: v3_sub(
                v3_sub(
                    v3_add(
                        v3_add(c.lower_left_corner.v3(), v3_scale(c.horizontal.v3(), sv)),
                        v3_scale(c.vertical.v3(), tv),
                    ),
                    c.origin.v3(),
                ),
                on_plane,
            ),
        }
    }
}

} // verus!
