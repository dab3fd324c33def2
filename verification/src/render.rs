//! The colour integrator and the pixel scheduler.
//!
//! [`ray_color`] follows a ray through the scene for a bounded number of
//! scatters; its contract pins the result and the sample-stream advance to
//! the recursive model [`ray_color_spec`]. The scheduler renders each
//! pixel from a stream seeded by the pixel's own index, so a pixel's
//! colour is a pure function of the scene, the camera, the configuration
//! and that index — which is why [`render_chunked`] promises the very same
//! image as [`render`] for every chunk size.

use crate::collision::materials::{
    dielectric_cannot_refract, dielectric_dir, lambertian_dir, reflect_spec, MaterialKind,
};
use crate::collision::objects::{world_hit_v, Primitive};
use crate::collision::{ray_at, Hittable, Material, Ray, RayV};
use crate::fx::{fx_add, fx_div, fx_mul, fx_sub, Fx, CAP};
use crate::rng::{mix64, rng_mix, rng_out, rng_step, rng_step2, unit_from, Rng};
use crate::vec3::{in_sphere_from, v3_add, v3_cmul, v3_dot, v3_neg, v3_scale, v3_unit, Vec3, V3};
use crate::{rgb_spec, Camera, Color, Rgb8};
use vstd::prelude::*;

verus! {

/// Lower end of every scene intersection window: a small positive bound
/// that keeps a scattered ray from re-hitting its own origin through
/// rounding (shadow acne).
pub open spec fn t_acne() -> int {
    fx_div(Fx::spec_from_int(1), Fx::spec_from_int(1000))
}

/// Upper end of the window: the largest representable scalar stands in
/// for infinity.
pub open spec fn t_far() -> int {
    CAP as int
}

pub open spec fn black_v() -> V3 {
    V3 { x: 0, y: 0, z: 0 }
}

pub open spec fn white_v() -> V3 {
    V3 { x: Fx::spec_from_int(1), y: Fx::spec_from_int(1), z: Fx::spec_from_int(1) }
}

/// The sky behind every missed ray: a linear gradient from white at the
/// horizon to blue at the zenith, keyed by the unit direction's height.
pub open spec fn background_spec(dir: V3) -> V3 {
    let u = v3_unit(dir);
    let t = fx_mul(
        fx_div(Fx::spec_from_int(1), Fx::spec_from_int(2)),
        fx_add(u.y, Fx::spec_from_int(1)),
    );
    v3_add(
        v3_scale(white_v(), fx_sub(Fx::spec_from_int(1), t)),
        v3_scale(
            V3 {
                x: fx_div(Fx::spec_from_int(1), Fx::spec_from_int(2)),
                y: fx_div(Fx::spec_from_int(7), Fx::spec_from_int(10)),
                z: Fx::spec_from_int(1),
            },
            t,
        ),
    )
}

/// The recursive model of the integrator: the colour carried back by a
/// ray and the sample-stream state left behind.
pub open spec fn ray_color_spec(objs: Seq<Primitive>, ray: RayV, s: u64, depth: int) -> (V3, u64)
    decreases depth,
{
    if depth <= 0 {
        (black_v(), s)
    } else {
        match world_hit_v(objs, ray, t_acne(), t_far()) {
            None => (background_spec(ray.dir), s),
            Some(b) => {
                let front = v3_dot(ray.dir, b.1) < 0;
                let normal = if front {
                    b.1
                } else {
                    v3_neg(b.1)
                };
                let point = ray_at(ray, b.0);
                match b.2 {
                    MaterialKind::Lambertian(m) => {
                        let rc = ray_color_spec(
                            objs,
                            RayV { orig: point, dir: lambertian_dir(normal, s) },
                            rng_step2(s),
                            depth - 1,
                        );
                        (v3_cmul(m.albedo.v3(), rc.0), rc.1)
                    },
                    MaterialKind::Metal(m) => {
                        let refl = reflect_spec(ray.dir, normal);
                        let dir = if m.fuzz() == 0 {
                            refl
                        } else {
                            v3_add(refl, v3_scale(in_sphere_from(s), m.fuzz()))
                        };
                        let s1 = if m.fuzz() == 0 {
                            s
                        } else {
                            rng_step(rng_step2(s))
                        };
                        if v3_dot(refl, normal) > 0 {
                            let rc = ray_color_spec(
                                objs,
                                RayV { orig: point, dir },
                                s1,
                                depth - 1,
                            );
                            (v3_cmul(m.albedo.v3(), rc.0), rc.1)
                        } else {
                            (black_v(), s1)
                        }
                    },
                    MaterialKind::Dielectric(m) => {
                        let s1 = if dielectric_cannot_refract(m.ri.v(), front, ray.dir, normal) {
                            s
                        } else {
                            rng_step(s)
                        };
                        let rc = ray_color_spec(
                            objs,
                            RayV {
                                orig: point,
                                dir: dielectric_dir(m.ri.v(), front, ray.dir, normal, s),
                            },
                            s1,
                            depth - 1,
                        );
                        (v3_cmul(white_v(), rc.0), rc.1)
                    },
                }
            },
        }
    }
}

/// Follow a ray through the scene: a miss returns the sky, a hit scatters
/// at the struck surface and recurses with one bounce less, an absorbed
/// ray or an exhausted budget returns black.
pub fn ray_color(ray: &Ray, world: &Vec<Primitive>, rng: &mut Rng, depth: i32) -> (r: Color)
    ensures
        r.v3() == ray_color_spec(world@, ray.rv(), old(rng).s(), depth as int).0,
        final(rng).s() == ray_color_spec(world@, ray.rv(), old(rng).s(), depth as int).1,
    decreases depth,
{
    if depth <= 0 {
        return Vec3::zero();
    }
    let acne = Fx::from_ratio(1, 1000);
    let far = Fx::from_raw(CAP);
    if let Some(hit) = world.hit(ray, acne, far) {
        let material = hit.material;
        if let Some(pair) = material.scatter(ray, &hit, rng) {
            let rec = ray_color(&pair.1, world, rng, depth - 1);
            return pair.0.cmul(rec);
        }
        return Vec3::zero();
    }
    let one = Fx::from_int(1);
    let direction = ray.direction.normalize();
    let t = Fx::from_ratio(1, 2).mul(direction.y().add(one));
    Vec3::new(one, one, one).scale(one.sub(t)).add(
        Vec3::new(Fx::from_ratio(1, 2), Fx::from_ratio(7, 10), one).scale(t),
    )
}

/// What one render produces and how: image extent, sampling effort,
/// bounce budget and the seed all pixel streams derive from.
#[derive(Clone, Copy, Debug, PartialEq, Eq, Structural)]
pub struct RenderConfig {
    pub width: usize,
    pub height: usize,
    pub samples_per_pixel: u32,
    pub max_depth: i32,
    pub base_seed: u64,
}

pub open spec fn cfg_wf(cfg: RenderConfig) -> bool {
    &&& 1 <= cfg.width <= 4096
    &&& 1 <= cfg.height <= 4096
    &&& 1 <= cfg.samples_per_pixel <= 100000
    &&& 0 <= cfg.max_depth <= 1000
}

impl RenderConfig {
    /// Whether the extents, effort and budget are within the supported
    /// range.
    pub fn valid(&self) -> (r: bool)
        ensures
            r == cfg_wf(*self),
    {
        1 <= self.width && self.width <= 4096 && 1 <= self.height && self.height <= 4096
            && 1 <= self.samples_per_pixel && self.samples_per_pixel <= 100000
            && 0 <= self.max_depth && self.max_depth <= 1000
    }
}

/// Accumulate `k` more jittered samples of pixel `(row, col)`.
pub open spec fn sample_loop(
    objs: Seq<Primitive>,
    cam: Camera,
    cfg: RenderConfig,
    row: int,
    col: int,
    acc: V3,
    s: u64,
    k: nat,
) -> (V3, u64)
    decreases k,
{
    if k == 0 {
        (acc, s)
    } else {
        let u = fx_div(
            fx_add(Fx::spec_from_int(col), unit_from(rng_out(s))),
            fx_sub(Fx::spec_from_int(cfg.width as int), Fx::spec_from_int(1)),
        );
        let s1 = rng_step(s);
        let v = fx_div(
            fx_add(Fx::spec_from_int(row), unit_from(rng_out(s1))),
            fx_sub(Fx::spec_from_int(cfg.height as int), Fx::spec_from_int(1)),
        );
        let s2 = rng_step(s1);
        let ray = Camera::get_ray_spec(cam, u, v, s2);
        let s3 = rng_step2(s2);
        let rc = ray_color_spec(objs, ray, s3, cfg.max_depth as int);
        sample_loop(objs, cam, cfg, row, col, v3_add(acc, rc.0), rc.1, (k - 1) as nat)
    }
}

/// Average `samples_per_pixel` jittered rays through pixel `(row, col)`
/// of the viewport and quantize the result.
pub fn calculate_pixel(
    row: usize,
    col: usize,
    camera: &Camera,
    world: &Vec<Primitive>,
    rng: &mut Rng,
    cfg: &RenderConfig,
) -> (r: Rgb8)
    requires
        cfg_wf(*cfg),
        row < cfg.height,
        col < cfg.width,
    ensures
        ({
            let sl = sample_loop(
                world@,
                *camera,
                *cfg,
                row as int,
                col as int,
                black_v(),
                old(rng).s(),
                cfg.samples_per_pixel as nat,
            );
            &&& (r.r as int, r.g as int, r.b as int) == rgb_spec(
                sl.0,
                cfg.samples_per_pixel as int,
            )
            &&& final(rng).s() == sl.1
        }),
{
    let ghost s0 = rng.s();
    let one = Fx::from_int(1);
    let w1 = Fx::from_int(cfg.width as i64).sub(one);
    let h1 = Fx::from_int(cfg.height as i64).sub(one);
    let colf = Fx::from_int(col as i64);
    let rowf = Fx::from_int(row as i64);
    let spp = cfg.samples_per_pixel;

    let mut pixel_color = Vec3::zero();
    let mut i: u32 = 0;
    while i < spp
        invariant
            i <= spp,
            cfg_wf(*cfg),
            spp == cfg.samples_per_pixel,
            one.v() == Fx::spec_from_int(1),
            w1.v() == fx_sub(Fx::spec_from_int(cfg.width as int), Fx::spec_from_int(1)),
            h1.v() == fx_sub(Fx::spec_from_int(cfg.height as int), Fx::spec_from_int(1)),
            colf.v() == Fx::spec_from_int(col as int),
            rowf.v() == Fx::spec_from_int(row as int),
            sample_loop(
                world@,
                *camera,
                *cfg,
                row as int,
                col as int,
                pixel_color.v3(),
                rng.s(),
                (spp - i) as nat,
            ) == sample_loop(
                world@,
                *camera,
                *cfg,
                row as int,
                col as int,
                black_v(),
                s0,
                spp as nat,
            ),
        decreases spp - i,
    {
        let u = colf.add(rng.next_unit()).div(w1);
        let v = rowf.add(rng.next_unit()).div(h1);
        let ray = camera.get_ray(u, v, rng);
        let sample = ray_color(&ray, world, rng, cfg.max_depth);
        pixel_color = pixel_color.add(sample);
        i = i + 1;
    }
    crate::color_to_rgb(pixel_color, spp)
}

/// The stream seed of the pixel at linear index `idx`: the base seed and
/// the index, spread by the output hash.
pub open spec fn pixel_seed(base: u64, idx: u64) -> u64 {
    rng_mix(
        vstd::wrapping::u64_specs::wrapping_add(
            base,
            vstd::wrapping::u64_specs::wrapping_mul(idx, 0x9E37_79B9_7F4A_7C15),
        ),
    )
}

/// The three channel bytes of the pixel at linear index `idx` of the
/// internal bottom-up raster: a pure function of scene, camera,
/// configuration and index.
pub open spec fn pixel_spec(
    objs: Seq<Primitive>,
    cam: Camera,
    cfg: RenderConfig,
    idx: int,
) -> (int, int, int) {
    let row = idx / (cfg.width as int);
    let col = idx % (cfg.width as int);
    let s0 = pixel_seed(cfg.base_seed, idx as u64);
    let sl = sample_loop(
        objs,
        cam,
        cfg,
        row,
        col,
        black_v(),
        s0,
        cfg.samples_per_pixel as nat,
    );
    rgb_spec(sl.0, cfg.samples_per_pixel as int)
}

/// Whether a pixel value carries exactly the given channel bytes.
pub open spec fn rgb_is(p: Rgb8, t: (int, int, int)) -> bool {
    p.r as int == t.0 && p.g as int == t.1 && p.b as int == t.2
}

/// Render the single pixel at linear index `idx` from its own seeded
/// stream.
pub fn render_pixel(
    world: &Vec<Primitive>,
    camera: &Camera,
    cfg: &RenderConfig,
    idx: usize,
) -> (r: Rgb8)
    requires
        cfg_wf(*cfg),
        idx < cfg.width * cfg.height,
    ensures
        rgb_is(r, pixel_spec(world@, *camera, *cfg, idx as int)),
{
    proof {
        let w = cfg.width as int;
        let q = (idx as int) / w;
        let rr = (idx as int) % w;
        vstd::arithmetic::div_mod::lemma_fundamental_div_mod(idx as int, w);
        vstd::arithmetic::div_mod::lemma_remainder(idx as int, w);
        vstd::arithmetic::div_mod::lemma_div_pos_is_pos(idx as int, w);
        assert(rr == idx as int - (idx as int) / w * w);
        assert(q < cfg.height as int) by (nonlinear_arith)
            requires
                idx as int == w * q + rr,
                0 <= rr < w,
                (idx as int) < w * (cfg.height as int),
                0 <= q,
        ;
    }
    let row = idx / cfg.width;
    let col = idx % cfg.width;
    let seed = mix64(cfg.base_seed.wrapping_add((idx as u64).wrapping_mul(0x9E37_79B9_7F4A_7C15)));
    let mut rng = Rng::new(seed);
    calculate_pixel(row, col, camera, world, &mut rng, cfg)
}

/// Render the `len` pixels of the raster beginning at linear index
/// `start`, in raster order.
pub fn render_chunk(
    world: &Vec<Primitive>,
    camera: &Camera,
    cfg: &RenderConfig,
    start: usize,
    len: usize,
) -> (r: Vec<Rgb8>)
    requires
        cfg_wf(*cfg),
        start + len <= cfg.width * cfg.height,
    ensures
        r@.len() == len,
        forall|j: int|
            0 <= j < len ==> rgb_is(#[trigger] r@[j], pixel_spec(world@, *camera, *cfg, start + j)),
{
    proof {
        assert(cfg.width * cfg.height <= 0x100_0000) by (nonlinear_arith)
            requires
                cfg.width <= 4096,
                cfg.height <= 4096,
        ;
    }
    let mut out: Vec<Rgb8> = Vec::new();
    let mut j: usize = 0;
    while j < len
        invariant
            j <= len,
            cfg_wf(*cfg),
            start + len <= cfg.width * cfg.height,
            start + len <= 0x100_0000,
            out@.len() == j,
            forall|k: int|
                0 <= k < j ==> rgb_is(
                    #[trigger] out@[k],
                    pixel_spec(world@, *camera, *cfg, start + k),
                ),
        decreases len - j,
    {
        let p = render_pixel(world, camera, cfg, start + j);
        out.push(p);
        j = j + 1;
    }
    out
}

/// Render the whole raster sequentially: pixel `i` of the result is
/// exactly `pixel_spec` at `i`.
pub fn render(world: &Vec<Primitive>, camera: &Camera, cfg: &RenderConfig) -> (r: Vec<Rgb8>)
    requires
        cfg_wf(*cfg),
    ensures
        r@.len() == cfg.width * cfg.height,
        forall|j: int|
            0 <= j < cfg.width * cfg.height ==> rgb_is(
                #[trigger] r@[j],
                pixel_spec(world@, *camera, *cfg, j),
            ),
{
    proof {
        assert(cfg.width * cfg.height <= 0x100_0000) by (nonlinear_arith)
            requires
                cfg.width <= 4096,
                cfg.height <= 4096,
        ;
    }
    let total = cfg.width * cfg.height;
    render_chunk(world, camera, cfg, 0, total)
}

/// Render the raster as consecutive chunks of at most `chunk_size`
/// pixels and join them in order. The contract is the same as
/// [`render`]'s: whatever the chunk count — one worker or many — the
/// image is pixel for pixel the same.
pub fn render_chunked(
    world: &Vec<Primitive>,
    camera: &Camera,
    cfg: &RenderConfig,
    chunk_size: usize,
) -> (r: Vec<Rgb8>)
    requires
        cfg_wf(*cfg),
        chunk_size >= 1,
    ensures
        r@.len() == cfg.width * cfg.height,
        forall|j: int|
            0 <= j < cfg.width * cfg.height ==> rgb_is(
                #[trigger] r@[j],
                pixel_spec(world@, *camera, *cfg, j),
            ),
{
    proof {
        assert(cfg.width * cfg.height <= 0x100_0000) by (nonlinear_arith)
            requires
                cfg.width <= 4096,
                cfg.height <= 4096,
        ;
    }
    let total = cfg.width * cfg.height;
    let mut buf: Vec<Rgb8> = Vec::new();
    let mut start: usize = 0;
    while start < total
        invariant
            start <= total,
            total == cfg.width * cfg.height,
            cfg_wf(*cfg),
            chunk_size >= 1,
            buf@.len() == start,
            forall|j: int|
                0 <= j < start ==> rgb_is(
                    #[trigger] buf@[j],
                    pixel_spec(world@, *camera, *cfg, j),
                ),
        decreases total - start,
    {
        let len = if chunk_size < total - start {
            chunk_size
        } else {
            total - start
        };
        let mut part = render_chunk(world, camera, cfg, start, len);
        buf.append(&mut part);
        start = start + len;
    }
    buf
}

/// The linear index, in the bottom-up raster, of the pixel that belongs
/// at index `idx` of the top-down image.
pub open spec fn flip_src(cfg: RenderConfig, idx: int) -> int {
    let row = idx / (cfg.width as int);
    let col = idx % (cfg.width as int);
    (cfg.height as int - 1 - row) * (cfg.width as int) + col
}

/// Reorder a bottom-up raster into the top-down image: output row `r` is
/// input row `height - 1 - r`.
pub fn flip_rows(buf: &Vec<Rgb8>, cfg: &RenderConfig) -> (r: Vec<Rgb8>)
    requires
        cfg_wf(*cfg),
        buf@.len() == cfg.width * cfg.height,
    ensures
        r@.len() == cfg.width * cfg.height,
        forall|j: int|
            0 <= j < cfg.width * cfg.height ==> #[trigger] r@[j] == buf@[flip_src(*cfg, j)],
{
    proof {
        assert(cfg.width * cfg.height <= 0x100_0000) by (nonlinear_arith)
            requires
                cfg.width <= 4096,
                cfg.height <= 4096,
        ;
    }
    let total = cfg.width * cfg.height;
    let mut out: Vec<Rgb8> = Vec::new();
    let mut j: usize = 0;
    while j < total
        invariant
            j <= total,
            total == cfg.width * cfg.height,
            cfg_wf(*cfg),
            buf@.len() == total,
            out@.len() == j,
            forall|k: int| 0 <= k < j ==> #[trigger] out@[k] == buf@[flip_src(*cfg, k)],
        decreases total - j,
    {
        proof {
            let w = cfg.width as int;
            let h = cfg.height as int;
            let q = (j as int) / w;
            let rr = (j as int) % w;
            vstd::arithmetic::div_mod::lemma_fundamental_div_mod(j as int, w);
            vstd::arithmetic::div_mod::lemma_remainder(j as int, w);
            vstd::arithmetic::div_mod::lemma_div_pos_is_pos(j as int, w);
            assert(rr == j as int - (j as int) / w * w);
            assert(q < h) by (nonlinear_arith)
                requires
                    j as int == w * q + rr,
                    0 <= rr < w,
                    (j as int) < w * h,
                    0 <= q,
            ;
            assert((h - 1 - q) * w + rr < w * h && 0 <= (h - 1 - q) * w + rr && (h - 1 - q) * w
                <= 4096 * 4096) by (nonlinear_arith)
                requires
                    0 <= q < h,
                    0 <= rr < w,
                    1 <= w <= 4096,
                    1 <= h <= 4096,
            ;
        }
        let row = j / cfg.width;
        let col = j % cfg.width;
        let src = (cfg.height - 1 - row) * cfg.width + col;
        out.push(buf[src]);
        j = j + 1;
    }
    out
}

/// An exhausted bounce budget yields black, whatever the ray, the scene
/// and the stream.
pub proof fn lemma_depth_zero_black(objs: Seq<Primitive>, ray: RayV, s: u64, depth: int)
    requires
        depth <= 0,
    ensures
        ray_color_spec(objs, ray, s, depth) == (black_v(), s),
{
}

/// A ray that misses every member of the scene carries back exactly the
/// background gradient of its direction.
pub proof fn lemma_miss_is_background(objs: Seq<Primitive>, ray: RayV, s: u64, depth: int)
    requires
        depth > 0,
        forall|i: int|
            0 <= i < objs.len() ==> crate::collision::objects::prim_hit_v(
                #[trigger] objs[i],
                ray,
                t_acne(),
                t_far(),
            ) is None,
    ensures
        ray_color_spec(objs, ray, s, depth) == (background_spec(ray.dir), s),
{
    crate::collision::objects::lemma_world_all_miss(objs, ray, t_acne(), t_far());
}

} // verus!
