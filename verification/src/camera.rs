//! The camera: viewport geometry derived from configuration, per-pixel
//! jittered sample rays, and the recursive color-integration loop.
//!
//! Configuration fields are set directly; `init` recomputes the cached
//! viewport fields (they are pure functions of the configuration) and
//! rejects invalid configurations before any rendering work begins.
//! Rendering is deterministic: every random draw comes from a stream seeded
//! by the caller's seed and the pixel position alone.

use vstd::prelude::*;
use crate::color::{color_rgb_spec, color_to_rgb, Color, Rgb};
use crate::fixed::{fx_add, fx_add_spec, fx_div, fx_div_spec, fx_mul, fx_mul_spec, fx_sub,
    fx_sub_spec, tdiv, FX_HALF, FX_ONE};
use crate::hittable_list::{list_hit_spec, scene_wf, HittableList};
use crate::interval::Interval;
use crate::material::{material_wf, scatter_spec};
use crate::ray::{ray_new_spec, Ray};
use crate::rng::{seed_state, Rng};
use crate::sphere::{sphere_hit_spec, Sphere};
use crate::util::{degs_to_rads, degs_to_rads_spec, fx_tan, fx_tan_spec, random_fx,
    random_fx_spec};
use crate::vec3::{
    add_spec, div_scalar_spec, lerp_spec, mul_elem_spec, neg_spec, scale_spec, sub_spec,
    unit_spec, vec3_spec, Point3, Vec3,
};

verus! {

/// The fixed-point representation of two.
pub const FX_TWO: i64 = 131072;

/// The open lower bound of the hit-parameter interval during integration:
/// about a thousandth, guarding against a scattered ray re-hitting its own
/// origin (shadow acne).
pub const FX_SHADOW_EPS: i64 = 66;

/// The largest accepted image dimension, in pixels.
pub const MAX_DIM: u32 = 65536;

/// Why a configuration was rejected at setup.
#[derive(Clone, Copy, PartialEq, Eq, Structural, Debug)]
pub enum CameraError {
    /// The aspect ratio is not positive.
    BadAspectRatio,
    /// The image width is zero, beyond `MAX_DIM`, or gives a height of zero
    /// or beyond `MAX_DIM`.
    BadImageSize,
    /// No samples per pixel.
    BadSampleCount,
    /// The vertical field of view is outside the open range between zero
    /// and a straight angle (or too close to it for its tangent).
    BadFieldOfView,
    /// The camera center coincides with the look-at point, or the up hint
    /// is parallel to the view axis: no basis can be built.
    DegenerateView,
}

pub struct Camera {
    // configuration
    pub aspect_ratio: i64,
    pub image_width: u32,
    pub samples_per_pixel: u32,
    pub max_child_rays: u32,
    pub vfov: u32,
    pub center: Point3,
    pub look_at_point: Point3,
    pub vup: Vec3,
    // derived, cached by `init`
    pub image_height: u32,
    pub pixel_sample_scale: i64,
    pub focal_length: i64,
    pub u: Vec3,
    pub v: Vec3,
    pub w: Vec3,
    pub pixel00_loc: Point3,
    pub pixel_delta_u: Vec3,
    pub pixel_delta_v: Vec3,
}

/// Two cameras agree on every configuration field (the cached fields may
/// differ).
pub open spec fn config_eq(a: Camera, b: Camera) -> bool {
    &&& a.aspect_ratio == b.aspect_ratio
    &&& a.image_width == b.image_width
    &&& a.samples_per_pixel == b.samples_per_pixel
    &&& a.max_child_rays == b.max_child_rays
    &&& a.vfov == b.vfov
    &&& a.center == b.center
    &&& a.look_at_point == b.look_at_point
    &&& a.vup == b.vup
}

/// The derivation `init` performs: each cached field as a function of the
/// configuration, or the error for a configuration it rejects.
pub open spec fn camera_init_spec(c: Camera) -> Result<Camera, CameraError> {
    if c.aspect_ratio <= 0 {
        Err(CameraError::BadAspectRatio)
    } else if c.image_width == 0 || c.image_width > MAX_DIM {
        Err(CameraError::BadImageSize)
    } else if c.samples_per_pixel == 0 {
        Err(CameraError::BadSampleCount)
    } else if c.vfov == 0 || c.vfov >= 180 {
        Err(CameraError::BadFieldOfView)
    } else {
        let width_fx = (c.image_width * FX_ONE) as i64;
        let height_px = tdiv(fx_div_spec(width_fx, c.aspect_ratio) as int, FX_ONE as int);
        if height_px <= 0 || height_px > MAX_DIM {
            Err(CameraError::BadImageSize)
        } else {
            let image_height = height_px as u32;
            let height_fx = (height_px * FX_ONE) as i64;
            let pixel_sample_scale = fx_div_spec(
                FX_ONE,
                (c.samples_per_pixel * FX_ONE) as i64,
            );
            let look_vec = sub_spec(c.center, c.look_at_point);
            let focal_length = crate::vec3::length_spec(look_vec);
            match (unit_spec(look_vec), fx_tan_spec(
                fx_div_spec(degs_to_rads_spec((c.vfov * FX_ONE) as i64), FX_TWO),
            )) {
                (None, _) => Err(CameraError::DegenerateView),
                (_, None) => Err(CameraError::BadFieldOfView),
                (Some(w), Some(half_tan)) => match unit_spec(crate::vec3::cross_spec(c.vup, w)) {
                    None => Err(CameraError::DegenerateView),
                    Some(u) => {
                        let v = crate::vec3::cross_spec(w, u);
                        let viewport_height = fx_mul_spec(fx_mul_spec(FX_TWO, half_tan),
                            focal_length);
                        let viewport_width = fx_mul_spec(viewport_height,
                            fx_div_spec(width_fx, height_fx));
                        let viewport_u = scale_spec(viewport_width, u);
                        let viewport_v = scale_spec(viewport_height, neg_spec(v));
                        let pixel_delta_u = div_scalar_spec(viewport_u, width_fx);
                        let pixel_delta_v = div_scalar_spec(viewport_v, height_fx);
                        let viewport_upper_left = sub_spec(
                            sub_spec(
                                sub_spec(c.center, scale_spec(focal_length, w)),
                                div_scalar_spec(viewport_u, FX_TWO),
                            ),
                            div_scalar_spec(viewport_v, FX_TWO),
                        );
                        let pixel00_loc = add_spec(
                            viewport_upper_left,
                            scale_spec(FX_HALF, add_spec(pixel_delta_u, pixel_delta_v)),
                        );
                        Ok(Camera {
                            aspect_ratio: c.aspect_ratio,
                            image_width: c.image_width,
                            samples_per_pixel: c.samples_per_pixel,
                            max_child_rays: c.max_child_rays,
                            vfov: c.vfov,
                            center: c.center,
                            look_at_point: c.look_at_point,
                            vup: c.vup,
                            image_height,
                            pixel_sample_scale,
                            focal_length,
                            u,
                            v,
                            w,
                            pixel00_loc,
                            pixel_delta_u,
                            pixel_delta_v,
                        })
                    },
                },
            }
        }
    }
}

/// The cached fields agree with the configuration: running the derivation
/// again would change nothing.
pub open spec fn derived_ok(c: Camera) -> bool {
    camera_init_spec(c) == Ok::<Camera, CameraError>(c)
}

impl Camera {
    /// A camera with default configuration; `init` (or `render`) must run
    /// before the cached fields mean anything.
    pub fn new() -> (c: Camera)
        ensures
            c.aspect_ratio == 116508,
            c.image_width == 800,
            c.samples_per_pixel == 10,
            c.max_child_rays == 10,
            c.vfov == 90,
            c.center == vec3_spec(0, 0, 0),
            c.look_at_point == vec3_spec(0, 0, (-FX_ONE) as i64),
            c.vup == vec3_spec(0, FX_ONE, 0),
    {
        Camera {
            // 16:9 in fixed point
            aspect_ratio: 116508,
            image_width: 800,
            samples_per_pixel: 10,
            max_child_rays: 10,
            vfov: 90,
            center: Vec3::new(0, 0, 0),
            look_at_point: Vec3::new(0, 0, -FX_ONE),
            vup: Vec3::new(0, FX_ONE, 0),
            image_height: 0,
            pixel_sample_scale: FX_ONE,
            focal_length: FX_ONE,
            u: Vec3::new(FX_ONE, 0, 0),
            v: Vec3::new(0, FX_ONE, 0),
            w: Vec3::new(0, 0, FX_ONE),
            pixel00_loc: Vec3::new(0, 0, 0),
            pixel_delta_u: Vec3::new(0, 0, 0),
            pixel_delta_v: Vec3::new(0, 0, 0),
        }
    }

    /// Recompute every cached field from the configuration, or reject it.
    /// On success the camera is exactly the derivation's result; on error
    /// it is unchanged.
    pub fn init(&mut self) -> (r: Result<(), CameraError>)
        ensures
            r is Ok ==> camera_init_spec(*old(self)) == Ok::<Camera, CameraError>(*final(self)),
            r is Ok ==> derived_ok(*final(self)) && config_eq(*old(self), *final(self)),
            r matches Err(e) ==> camera_init_spec(*old(self)) == Err::<Camera, CameraError>(e)
                && *final(self) == *old(self),
    {
        if self.aspect_ratio <= 0 {
            return Err(CameraError::BadAspectRatio);
        }
        if self.image_width == 0 || self.image_width > MAX_DIM {
            return Err(CameraError::BadImageSize);
        }
        if self.samples_per_pixel == 0 {
            return Err(CameraError::BadSampleCount);
        }
        if self.vfov == 0 || self.vfov >= 180 {
            return Err(CameraError::BadFieldOfView);
        }
        let width_fx: i64 = (self.image_width as i64) * FX_ONE;
        let height_raw: i64 = fx_div(width_fx, self.aspect_ratio);
        proof {
            assert(0 <= height_raw);
            assert(tdiv(height_raw as int, FX_ONE as int) == (height_raw as int) / (
            FX_ONE as int));
        }
        let height_px: i64 = ((height_raw as u64) / (FX_ONE as u64)) as i64;
        if height_px <= 0 || height_px > MAX_DIM as i64 {
            return Err(CameraError::BadImageSize);
        }
        let image_height: u32 = height_px as u32;
        let height_fx: i64 = height_px * FX_ONE;
        let pixel_sample_scale: i64 = fx_div(FX_ONE, (self.samples_per_pixel as i64) * FX_ONE);
        let look_vec: Vec3 = self.center.sub(&self.look_at_point);
        let focal_length: i64 = look_vec.length();
        let w_opt: Option<Vec3> = look_vec.unit();
        let theta: i64 = degs_to_rads((self.vfov as i64) * FX_ONE);
        let half_tan_opt: Option<i64> = fx_tan(fx_div(theta, FX_TWO));
        let w: Vec3 = match w_opt {
            Some(w) => w,
            None => {
                return Err(CameraError::DegenerateView);
            },
        };
        let half_tan: i64 = match half_tan_opt {
            Some(t) => t,
            None => {
                return Err(CameraError::BadFieldOfView);
            },
        };
        let u: Vec3 = match self.vup.cross(&w).unit() {
            Some(u) => u,
            None => {
                return Err(CameraError::DegenerateView);
            },
        };
        let v: Vec3 = w.cross(&u);
        let viewport_height: i64 = fx_mul(fx_mul(FX_TWO, half_tan), focal_length);
        let viewport_width: i64 = fx_mul(viewport_height, fx_div(width_fx, height_fx));
        let viewport_u: Vec3 = u.scale(viewport_width);
        let viewport_v: Vec3 = v.neg().scale(viewport_height);
        let pixel_delta_u: Vec3 = viewport_u.div_scalar(width_fx);
        let pixel_delta_v: Vec3 = viewport_v.div_scalar(height_fx);
        let viewport_upper_left: Vec3 = self
            .center
            .sub(&w.scale(focal_length))
            .sub(&viewport_u.div_scalar(FX_TWO))
            .sub(&viewport_v.div_scalar(FX_TWO));
        let pixel00_loc: Vec3 = viewport_upper_left.add(
            &pixel_delta_u.add(&pixel_delta_v).scale(FX_HALF),
        );
        self.image_height = image_height;
        self.pixel_sample_scale = pixel_sample_scale;
        self.focal_length = focal_length;
        self.u = u;
        self.v = v;
        self.w = w;
        self.pixel00_loc = pixel00_loc;
        self.pixel_delta_u = pixel_delta_u;
        self.pixel_delta_v = pixel_delta_v;
        Ok(())
    }
}

/// The background: a vertical white-to-sky-blue gradient in the ray
/// direction's vertical component, mapped from `[-1, 1]` to `[0, 1]`.
pub open spec fn background_spec(r: Ray) -> Color {
    let t = fx_div_spec(fx_add_spec(r.direction.y, FX_ONE), FX_TWO);
    lerp_spec(
        vec3_spec(FX_ONE, FX_ONE, FX_ONE),
        vec3_spec(FX_HALF, 45875, FX_ONE),
        t,
    )
}

/// The recursive color of a ray: black once the bounce budget is spent,
/// otherwise the nearest hit's scattered color attenuated, black on
/// absorption, and the background gradient on a miss.
pub open spec fn ray_color_spec(r: Ray, depth: u32, objs: Seq<Sphere>, s: u64) -> (Color, u64)
    decreases depth,
{
    if depth == 0 {
        (vec3_spec(0, 0, 0), s)
    } else {
        match list_hit_spec(objs, r, Interval { min: FX_SHADOW_EPS, max: i64::MAX }) {
            Some(rec) => {
                let (scat, s1) = scatter_spec(rec.mat, r.direction, rec, s);
                match scat {
                    Some(pair) => {
                        let (col, s2) = ray_color_spec(pair.1, (depth - 1) as u32, objs, s1);
                        (mul_elem_spec(pair.0, col), s2)
                    },
                    None => (vec3_spec(0, 0, 0), s1),
                }
            },
            None => (background_spec(r), s),
        }
    }
}

/// One jittered sample ray through pixel `(h, w)`: the pixel center offset
/// by a uniform draw in `[-1/2, 1/2)` per axis; a degenerate direction
/// falls back to straight ahead.
pub open spec fn get_ray_spec(c: Camera, h: u32, w: u32, s: u64) -> (Ray, u64) {
    let (ox, s1) = random_fx_spec(s);
    let (oy, s2) = random_fx_spec(s1);
    let offx = fx_sub_spec(ox, FX_HALF);
    let offy = fx_sub_spec(oy, FX_HALF);
    let px = add_spec(
        add_spec(
            c.pixel00_loc,
            scale_spec(fx_add_spec((w * FX_ONE) as i64, offx), c.pixel_delta_u),
        ),
        scale_spec(fx_add_spec((h * FX_ONE) as i64, offy), c.pixel_delta_v),
    );
    let dir = sub_spec(px, c.center);
    match ray_new_spec(c.center, dir) {
        Some(r) => (r, s2),
        None => (Ray { origin: c.center, direction: vec3_spec(0, 0, (-FX_ONE) as i64) }, s2),
    }
}

/// The generator state a pixel's sample stream starts in: the render seed
/// mixed with the pixel position, so pixels are independent and a whole
/// render is a function of the seed.
pub open spec fn pixel_seed_spec(seed: u64, h: u32, w: u32) -> u64 {
    seed_state(seed ^ ((h as u64) << 32u64) ^ (w as u64))
}

/// The color sum of the first `n` samples of pixel `(h, w)`.
pub open spec fn sample_accum_spec(
    c: Camera,
    objs: Seq<Sphere>,
    h: u32,
    w: u32,
    n: nat,
    s: u64,
) -> (Color, u64)
    decreases n,
{
    if n == 0 {
        (vec3_spec(0, 0, 0), s)
    } else {
        let (acc, s1) = sample_accum_spec(c, objs, h, w, (n - 1) as nat, s);
        let (ray, s2) = get_ray_spec(c, h, w, s1);
        let (col, s3) = ray_color_spec(ray, c.max_child_rays, objs, s2);
        (add_spec(acc, col), s3)
    }
}

/// The finished byte triple of pixel `(h, w)`: the sample average, gamma
/// corrected, clamped and scaled.
pub open spec fn pixel_rgb_spec(c: Camera, objs: Seq<Sphere>, seed: u64, h: u32, w: u32) -> Rgb {
    let s0 = pixel_seed_spec(seed, h, w);
    let (acc, s1) = sample_accum_spec(c, objs, h, w, c.samples_per_pixel as nat, s0);
    color_rgb_spec(scale_spec(c.pixel_sample_scale, acc))
}

/// The first `n` pixels of row `h`, left to right.
pub open spec fn row_pixels_spec(
    c: Camera,
    objs: Seq<Sphere>,
    seed: u64,
    h: u32,
    n: nat,
) -> Seq<Rgb>
    decreases n,
{
    if n == 0 {
        Seq::empty()
    } else {
        row_pixels_spec(c, objs, seed, h, (n - 1) as nat).push(
            pixel_rgb_spec(c, objs, seed, h, (n - 1) as u32),
        )
    }
}

/// The first `n` rows of the image, top to bottom, row-major.
pub open spec fn image_rows_spec(c: Camera, objs: Seq<Sphere>, seed: u64, n: nat) -> Seq<Rgb>
    decreases n,
{
    if n == 0 {
        Seq::empty()
    } else {
        image_rows_spec(c, objs, seed, (n - 1) as nat) + row_pixels_spec(
            c,
            objs,
            seed,
            (n - 1) as u32,
            c.image_width as nat,
        )
    }
}

/// What a whole render returns for a camera, scene and seed: the derived
/// camera's pixels, or the configuration error.
pub open spec fn render_spec(c: Camera, objs: Seq<Sphere>, seed: u64) -> Result<
    Seq<Rgb>,
    CameraError,
> {
    match camera_init_spec(c) {
        Ok(c2) => Ok(image_rows_spec(c2, objs, seed, c2.image_height as nat)),
        Err(e) => Err(e),
    }
}

/// A finished render: the pixel bytes in row-major order.
pub struct Image {
    pub width: u32,
    pub height: u32,
    pub pixels: Vec<Rgb>,
}

impl Camera {
    /// One jittered sample ray through pixel `(h, w)`.
    pub fn get_ray(&self, h: u32, w: u32, rng: &mut Rng) -> (r: Ray)
        ensures
            (r, final(rng).state) == get_ray_spec(*self, h, w, old(rng).state),
    {
        let ox: i64 = random_fx(rng);
        let oy: i64 = random_fx(rng);
        let offx: i64 = fx_sub(ox, FX_HALF);
        let offy: i64 = fx_sub(oy, FX_HALF);
        let w_fx: i64 = (w as i64) * FX_ONE;
        let h_fx: i64 = (h as i64) * FX_ONE;
        let px: Vec3 = self
            .pixel00_loc
            .add(&self.pixel_delta_u.scale(fx_add(w_fx, offx)))
            .add(&self.pixel_delta_v.scale(fx_add(h_fx, offy)));
        let dir: Vec3 = px.sub(&self.center);
        match Ray::new(self.center, dir) {
            Some(r) => r,
            None => Ray { origin: self.center, direction: Vec3::new(0, 0, -FX_ONE) },
        }
    }

    /// The color carried back along a ray, integrating up to `depth`
    /// scattering events; a zero budget is black.
    pub fn ray_color(r: &Ray, depth: u32, world: &HittableList, rng: &mut Rng) -> (res: Color)
        requires
            scene_wf(world.objects@),
        ensures
            (res, final(rng).state) == ray_color_spec(*r, depth, world.objects@, old(
                rng,
            ).state),
            depth == 0 ==> res == vec3_spec(0, 0, 0),
        decreases depth,
    {
        if depth == 0 {
            return Vec3::new(0, 0, 0);
        }
        match world.hit(r, Interval { min: FX_SHADOW_EPS, max: i64::MAX }) {
            Some(rec) => {
                proof {
                    let objs = world.objects@;
                    let iv = Interval { min: FX_SHADOW_EPS, max: i64::MAX };
                    let j = choose|j: int|
                        0 <= j < objs.len() && sphere_hit_spec(objs[j], *r, iv) == Some(rec);
                    assert(rec.mat == objs[j].mat);
                    assert(material_wf(rec.mat));
                }
                match rec.mat.scatter(&r.direction, &rec, rng) {
                    Some((attenuation, scattered)) => {
                        let col: Color = Self::ray_color(&scattered, depth - 1, world, rng);
                        attenuation.mul_elem(&col)
                    },
                    None => Vec3::new(0, 0, 0),
                }
            },
            None => {
                let t: i64 = fx_div(fx_add(r.direction.y, FX_ONE), FX_TWO);
                Vec3::new(FX_ONE, FX_ONE, FX_ONE).lerp(&Vec3::new(FX_HALF, 45875, FX_ONE), t)
            },
        }
    }

    /// Render one scanline: the byte triples of row `h`, left to right.
    /// Each pixel's sample stream is seeded from `seed` and its position.
    pub fn render_row(&self, world: &HittableList, seed: u64, h: u32) -> (res: Vec<Rgb>)
        requires
            scene_wf(world.objects@),
        ensures
            res@ == row_pixels_spec(*self, world.objects@, seed, h, self.image_width as nat),
            res@.len() == self.image_width,
    {
        let mut res: Vec<Rgb> = Vec::new();
        let mut w: u32 = 0;
        while w < self.image_width
            invariant
                0 <= w <= self.image_width,
                scene_wf(world.objects@),
                res@ == row_pixels_spec(*self, world.objects@, seed, h, w as nat),
                res@.len() == w,
            decreases self.image_width - w,
        {
            let mut rng: Rng = Rng::new(seed ^ ((h as u64) << 32u64) ^ (w as u64));
            let mut acc: Color = Vec3::new(0, 0, 0);
            let ghost s0 = rng.state;
            let mut sample: u32 = 0;
            while sample < self.samples_per_pixel
                invariant
                    0 <= sample <= self.samples_per_pixel,
                    scene_wf(world.objects@),
                    (acc, rng.state) == sample_accum_spec(
                        *self,
                        world.objects@,
                        h,
                        w,
                        sample as nat,
                        s0,
                    ),
                decreases self.samples_per_pixel - sample,
            {
                let ray: Ray = self.get_ray(h, w, &mut rng);
                let col: Color = Self::ray_color(&ray, self.max_child_rays, world, &mut rng);
                acc = acc.add(&col);
                sample = sample + 1;
            }
            let px: Rgb = color_to_rgb(&acc.scale(self.pixel_sample_scale));
            res.push(px);
            w = w + 1;
        }
        res
    }

    /// Render the whole image: recompute the viewport from the
    /// configuration (rejecting an invalid one), then produce every
    /// scanline. The result is a pure function of the configuration, the
    /// scene and the seed.
    pub fn render(&mut self, world: &HittableList, seed: u64) -> (r: Result<Image, CameraError>)
        requires
            scene_wf(world.objects@),
        ensures
            r is Ok ==> camera_init_spec(*old(self)) == Ok::<Camera, CameraError>(*final(self)),
            r is Ok ==> render_spec(*old(self), world.objects@, seed) == Ok::<
                Seq<Rgb>,
                CameraError,
            >(r.unwrap().pixels@),
            r is Ok ==> r.unwrap().width == final(self).image_width && r.unwrap().height
                == final(self).image_height && r.unwrap().pixels@.len() == (
            final(self).image_height as int) * (final(self).image_width as int),
            r matches Err(e) ==> render_spec(*old(self), world.objects@, seed) == Err::<
                Seq<Rgb>,
                CameraError,
            >(e) && *final(self) == *old(self),
    {
        match self.init() {
            Ok(()) => {},
            Err(e) => {
                return Err(e);
            },
        }
        let mut pixels: Vec<Rgb> = Vec::new();
        let mut h: u32 = 0;
        while h < self.image_height
            invariant
                0 <= h <= self.image_height,
                scene_wf(world.objects@),
                pixels@ == image_rows_spec(*self, world.objects@, seed, h as nat),
                pixels@.len() == (h as int) * (self.image_width as int),
            decreases self.image_height - h,
        {
            let mut row: Vec<Rgb> = self.render_row(world, seed, h);
            proof {
                assert((h as int) * (self.image_width as int) + (self.image_width as int) == ((
                h + 1) as int) * (self.image_width as int)) by (nonlinear_arith);
            }
            pixels.append(&mut row);
            h = h + 1;
        }
        Ok(Image { width: self.image_width, height: self.image_height, pixels })
    }
}

/// The derivation reads the configuration alone: cameras that agree on
/// every configuration field derive the same viewport (or fail alike).
pub proof fn lemma_init_depends_on_config_only(c1: Camera, c2: Camera)
    requires
        config_eq(c1, c2),
    ensures
        camera_init_spec(c1) == camera_init_spec(c2),
{
}

/// Rendering is reproducible: cameras that agree on their configuration
/// render the same scene and seed to the same pixels. In particular two
/// renders with one configuration give identical output.
pub proof fn lemma_render_deterministic(c1: Camera, c2: Camera, objs: Seq<Sphere>, seed: u64)
    requires
        config_eq(c1, c2),
    ensures
        render_spec(c1, objs, seed) == render_spec(c2, objs, seed),
{
    lemma_init_depends_on_config_only(c1, c2);
}

} // verus!
