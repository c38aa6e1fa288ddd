//! Scattering behavior: how each material turns an incoming ray at a hit
//! point into an attenuation color and an outgoing ray, or absorbs it.
//!
//! The material set is closed, so the polymorphic capability is a tagged
//! sum over the three surface models.

use vstd::prelude::*;
use crate::color::Color;
use crate::fixed::{
    fx_abs, fx_abs_spec, fx_add, fx_add_spec, fx_div, fx_div_spec, fx_mul, fx_mul_spec,
    fx_sqrt, fx_sqrt_spec, fx_sub, fx_sub_spec, FX_ONE,
};
use crate::hittable::HitRecord;
use crate::ray::{ray_new_spec, Ray};
use crate::rng::Rng;
use crate::util::{
    fx_min_spec, random_fx, random_fx_spec, random_unit_vec, random_unit_vec_spec, reflect_spec,
    reflect_vec3, refract_spec, refract_vec3,
};
use crate::vec3::{add_spec, dot_spec, neg_spec, scale_spec, unit_spec, Vec3};

verus! {

/// A diffuse surface: bounces everywhere, tinted by its albedo.
#[derive(Clone, Copy, PartialEq, Eq, Structural, Debug)]
pub struct LambertianMaterial {
    pub albedo: Color,
}

/// A reflective surface: mirror bounce, roughened by `fuzz`.
#[derive(Clone, Copy, PartialEq, Eq, Structural, Debug)]
pub struct MetalMaterial {
    pub albedo: Color,
    pub fuzz: i64,
}

/// A clear refractive surface (glass-like).
#[derive(Clone, Copy, PartialEq, Eq, Structural, Debug)]
pub struct DielectricMaterial {
    pub refraction_index: i64,
}

/// The closed set of surface models a primitive can carry.
#[derive(Clone, Copy, PartialEq, Eq, Structural, Debug)]
pub enum Material {
    Lambertian(LambertianMaterial),
    Metal(MetalMaterial),
    Dielectric(DielectricMaterial),
}

impl LambertianMaterial {
    pub fn new(albedo: Color) -> (r: LambertianMaterial)
        ensures
            r.albedo == albedo,
    {
        LambertianMaterial { albedo }
    }
}

impl MetalMaterial {
    /// `fuzz` is clamped into `[0, FX_ONE]` at construction: above one it is
    /// one, below zero it is zero.
    pub fn new(albedo: Color, fuzz: i64) -> (r: MetalMaterial)
        ensures
            r.albedo == albedo,
            r.fuzz == (if fuzz < 0 {
                0i64
            } else if fuzz < FX_ONE {
                fuzz
            } else {
                FX_ONE
            }),
            0 <= r.fuzz <= FX_ONE,
    {
        let fuzz: i64 = if fuzz < 0 {
            0
        } else if fuzz < FX_ONE {
            fuzz
        } else {
            FX_ONE
        };
        MetalMaterial { albedo, fuzz }
    }
}

impl DielectricMaterial {
    /// The refractive index must be positive (vacuum is one).
    pub fn new(refraction_index: i64) -> (r: DielectricMaterial)
        requires
            0 < refraction_index,
        ensures
            r.refraction_index == refraction_index,
    {
        DielectricMaterial { refraction_index }
    }

    /// Schlick's approximation of Fresnel reflectance.
    pub open spec fn reflectance_spec(cosine: i64, ri: i64) -> i64 {
        let r0 = fx_div_spec(fx_sub_spec(FX_ONE, ri), fx_add_spec(FX_ONE, ri));
        let r0sq = fx_mul_spec(r0, r0);
        let omc = fx_sub_spec(FX_ONE, cosine);
        let omc2 = fx_mul_spec(omc, omc);
        let omc4 = fx_mul_spec(omc2, omc2);
        let omc5 = fx_mul_spec(omc4, omc);
        fx_add_spec(r0sq, fx_mul_spec(fx_sub_spec(FX_ONE, r0sq), omc5))
    }

    fn reflectance(cosine: i64, ri: i64) -> (r: i64)
        requires
            0 <= ri,
        ensures
            r == Self::reflectance_spec(cosine, ri),
    {
        let r0: i64 = fx_div(fx_sub(FX_ONE, ri), fx_add(FX_ONE, ri));
        let r0sq: i64 = fx_mul(r0, r0);
        let omc: i64 = fx_sub(FX_ONE, cosine);
        let omc2: i64 = fx_mul(omc, omc);
        let omc4: i64 = fx_mul(omc2, omc2);
        let omc5: i64 = fx_mul(omc4, omc);
        fx_add(r0sq, fx_mul(fx_sub(FX_ONE, r0sq), omc5))
    }
}

/// A material whose parameters a render can work with.
pub open spec fn material_wf(m: Material) -> bool {
    match m {
        Material::Lambertian(_) => true,
        Material::Metal(_) => true,
        Material::Dielectric(d) => 0 < d.refraction_index,
    }
}

/// Diffuse bounce: the outgoing direction is the stored normal nudged by a
/// random unit vector; if that sum degenerates to zero length the raw
/// normal is used instead. Never absorbs.
pub open spec fn lambertian_scatter_spec(
    m: LambertianMaterial,
    rec: HitRecord,
    s: u64,
) -> (Option<(Color, Ray)>, u64) {
    let (ruv, s1) = random_unit_vec_spec(s);
    let dir = add_spec(rec.normal, ruv);
    match ray_new_spec(rec.p, dir) {
        Some(ray) => (Some((m.albedo, ray)), s1),
        None => (Some((m.albedo, Ray { origin: rec.p, direction: rec.normal })), s1),
    }
}

/// Mirror bounce: the reflection is normalized, perturbed by `fuzz` times a
/// random unit vector, and re-normalized; the ray is absorbed when the
/// perturbed direction falls into the surface (or degenerates).
pub open spec fn metal_scatter_spec(
    m: MetalMaterial,
    ray_in: Vec3,
    rec: HitRecord,
    s: u64,
) -> (Option<(Color, Ray)>, u64) {
    let refl = reflect_spec(ray_in, rec.normal);
    let (ruv, s1) = random_unit_vec_spec(s);
    match unit_spec(refl) {
        None => (None, s1),
        Some(rn) => {
            let dir = add_spec(rn, scale_spec(m.fuzz, ruv));
            match ray_new_spec(rec.p, dir) {
                None => (None, s1),
                Some(ray) => if dot_spec(ray.direction, rec.normal) > 0 {
                    (Some((m.albedo, ray)), s1)
                } else {
                    (None, s1)
                },
            }
        },
    }
}

/// Glass bounce: reflect on total internal reflection or a Schlick draw,
/// refract otherwise; attenuation is always white, and the ray is never
/// absorbed (a degenerate direction falls back to the stored normal's
/// opposite side).
pub open spec fn dielectric_scatter_spec(
    m: DielectricMaterial,
    ray_in: Vec3,
    rec: HitRecord,
    s: u64,
) -> (Option<(Color, Ray)>, u64) {
    let attenuation = Vec3 { x: FX_ONE, y: FX_ONE, z: FX_ONE };
    let ri = if rec.front_face {
        fx_div_spec(FX_ONE, m.refraction_index)
    } else {
        m.refraction_index
    };
    let unit_uv = match unit_spec(ray_in) {
        Some(u) => u,
        None => neg_spec(rec.normal),
    };
    let cos_theta = fx_min_spec(dot_spec(neg_spec(unit_uv), rec.normal), FX_ONE);
    let sin_theta = fx_sqrt_spec(
        fx_abs_spec(fx_sub_spec(FX_ONE, fx_mul_spec(cos_theta, cos_theta))),
    );
    let cannot_refract = fx_mul_spec(ri, sin_theta) > FX_ONE;
    let (draw, s1) = random_fx_spec(s);
    let dir = if cannot_refract || DielectricMaterial::reflectance_spec(cos_theta, ri) > draw {
        reflect_spec(unit_uv, rec.normal)
    } else {
        refract_spec(unit_uv, rec.normal, ri)
    };
    match ray_new_spec(rec.p, dir) {
        Some(ray) => (Some((attenuation, ray)), s1),
        None => (Some((attenuation, Ray { origin: rec.p, direction: neg_spec(rec.normal) })), s1),
    }
}

/// Scattering of any material.
pub open spec fn scatter_spec(
    m: Material,
    ray_in: Vec3,
    rec: HitRecord,
    s: u64,
) -> (Option<(Color, Ray)>, u64) {
    match m {
        Material::Lambertian(l) => lambertian_scatter_spec(l, rec, s),
        Material::Metal(mm) => metal_scatter_spec(mm, ray_in, rec, s),
        Material::Dielectric(d) => dielectric_scatter_spec(d, ray_in, rec, s),
    }
}

impl Material {
    /// Scatter an incoming ray direction at a hit: an attenuation color and
    /// the outgoing ray, or nothing for absorption.
    pub fn scatter(&self, ray_in: &Vec3, rec: &HitRecord, rng: &mut Rng) -> (r: Option<
        (Color, Ray),
    >)
        requires
            material_wf(*self),
        ensures
            (r, final(rng).state) == scatter_spec(*self, *ray_in, *rec, old(rng).state),
    {
        match self {
            Material::Lambertian(l) => {
                let ruv: Vec3 = random_unit_vec(rng);
                let dir: Vec3 = rec.normal.add(&ruv);
                match Ray::new(rec.p, dir) {
                    Some(ray) => Some((l.albedo, ray)),
                    None => Some((l.albedo, Ray { origin: rec.p, direction: rec.normal })),
                }
            },
            Material::Metal(m) => {
                let refl: Vec3 = reflect_vec3(ray_in, &rec.normal);
                let ruv: Vec3 = random_unit_vec(rng);
                match refl.unit() {
                    None => None,
                    Some(rn) => {
                        let dir: Vec3 = rn.add(&ruv.scale(m.fuzz));
                        match Ray::new(rec.p, dir) {
                            None => None,
                            Some(ray) => {
                                if ray.direction.dot(&rec.normal) > 0 {
                                    Some((m.albedo, ray))
                                } else {
                                    None
                                }
                            },
                        }
                    },
                }
            },
            Material::Dielectric(d) => {
                let attenuation: Color = Vec3::new(FX_ONE, FX_ONE, FX_ONE);
                let ri: i64 = if rec.front_face {
                    fx_div(FX_ONE, d.refraction_index)
                } else {
                    d.refraction_index
                };
                proof {
                    assert(0 <= ri);
                }
                let unit_uv: Vec3 = match ray_in.unit() {
                    Some(u) => u,
                    None => rec.normal.neg(),
                };
                let mcos: i64 = unit_uv.neg().dot(&rec.normal);
                let cos_theta: i64 = if mcos < FX_ONE {
                    mcos
                } else {
                    FX_ONE
                };
                let sin_theta: i64 = fx_sqrt(fx_abs(fx_sub(FX_ONE, fx_mul(cos_theta, cos_theta))));
                let cannot_refract: bool = fx_mul(ri, sin_theta) > FX_ONE;
                let draw: i64 = random_fx(rng);
                let dir: Vec3 = if cannot_refract
                    || DielectricMaterial::reflectance(cos_theta, ri) > draw {
                    reflect_vec3(&unit_uv, &rec.normal)
                } else {
                    refract_vec3(&unit_uv, &rec.normal, ri)
                };
                match Ray::new(rec.p, dir) {
                    Some(ray) => Some((attenuation, ray)),
                    None => Some((attenuation, Ray { origin: rec.p, direction: rec.normal.neg() })),
                }
            },
        }
    }
}

/// A diffuse surface never absorbs: Lambertian scattering always returns a
/// bounce, whose attenuation is the albedo.
pub proof fn lemma_lambertian_always_scatters(m: LambertianMaterial, rec: HitRecord, s: u64)
    ensures
        lambertian_scatter_spec(m, rec, s).0 is Some,
        lambertian_scatter_spec(m, rec, s).0.unwrap().0 == m.albedo,
{
}

/// A clear surface never absorbs: dielectric scattering always returns a
/// bounce, whose attenuation is white.
pub proof fn lemma_dielectric_always_scatters(
    m: DielectricMaterial,
    ray_in: Vec3,
    rec: HitRecord,
    s: u64,
)
    ensures
        dielectric_scatter_spec(m, ray_in, rec, s).0 is Some,
        dielectric_scatter_spec(m, ray_in, rec, s).0.unwrap().0 == (Vec3 {
            x: FX_ONE,
            y: FX_ONE,
            z: FX_ONE,
        }),
{
}

/// A boundary with refractive index one bends nothing: the effective ratio
/// is one on either face, total internal reflection is impossible, and
/// whenever the Fresnel draw passes, the ray takes the refraction branch
/// (whose formula at ratio one reproduces the incoming direction up to
/// fixed-point rounding; a test checks the residual deviation).
pub proof fn lemma_dielectric_unit_index_refracts(
    m: DielectricMaterial,
    ray_in: Vec3,
    rec: HitRecord,
    s: u64,
)
    requires
        m.refraction_index == FX_ONE,
        ({
            let unit_uv = match unit_spec(ray_in) {
                Some(u) => u,
                None => neg_spec(rec.normal),
            };
            dot_spec(neg_spec(unit_uv), rec.normal) >= -FX_ONE
        }),
        ({
            let unit_uv = match unit_spec(ray_in) {
                Some(u) => u,
                None => neg_spec(rec.normal),
            };
            let cos_theta = fx_min_spec(dot_spec(neg_spec(unit_uv), rec.normal), FX_ONE);
            DielectricMaterial::reflectance_spec(cos_theta, FX_ONE) <= random_fx_spec(s).0
        }),
    ensures
        ({
            let unit_uv = match unit_spec(ray_in) {
                Some(u) => u,
                None => neg_spec(rec.normal),
            };
            let refracted = refract_spec(unit_uv, rec.normal, FX_ONE);
            let expected = match ray_new_spec(rec.p, refracted) {
                Some(ray) => ray,
                None => Ray { origin: rec.p, direction: neg_spec(rec.normal) },
            };
            dielectric_scatter_spec(m, ray_in, rec, s).0 == Some(
                (Vec3 { x: FX_ONE, y: FX_ONE, z: FX_ONE }, expected),
            )
        }),
{
    let unit_uv = match unit_spec(ray_in) {
        Some(u) => u,
        None => neg_spec(rec.normal),
    };
    let ri = if rec.front_face {
        fx_div_spec(FX_ONE, m.refraction_index)
    } else {
        m.refraction_index
    };
    crate::fixed::lemma_tdiv_scale_exact(FX_ONE as int);
    assert(65536int * 65536int == (FX_ONE as int) * (FX_ONE as int));
    assert(ri == FX_ONE);

    let cos_theta = fx_min_spec(dot_spec(neg_spec(unit_uv), rec.normal), FX_ONE);
    assert(-FX_ONE <= cos_theta <= FX_ONE);
    let cc = fx_mul_spec(cos_theta, cos_theta);
    assert(0 <= cos_theta as int * (cos_theta as int) <= 65536int * 65536int)
        by (nonlinear_arith)
        requires -65536 <= cos_theta as int <= 65536;
    vstd::arithmetic::div_mod::lemma_multiply_divide_le(
        cos_theta as int * (cos_theta as int),
        FX_ONE as int,
        FX_ONE as int,
    );
    assert(0 <= cc <= FX_ONE);
    let k = fx_abs_spec(fx_sub_spec(FX_ONE, cc));
    assert(0 <= k <= FX_ONE);

    let sin_theta = fx_sqrt_spec(k);
    crate::fixed::lemma_fx_sqrt_spec_value(k);
    assert((65536int + 1) * (65536int + 1) == 4295098369int) by (nonlinear_arith);
    assert(k * FX_ONE <= 4294967296int);
    crate::fixed::lemma_sqrt_floor_le((k * FX_ONE) as nat, FX_ONE as nat);
    assert(sin_theta <= FX_ONE);
    crate::fixed::lemma_tdiv_scale_exact(sin_theta as int);
    assert(FX_ONE as int * (sin_theta as int) == sin_theta as int * (FX_ONE as int));
    assert(fx_mul_spec(ri, sin_theta) == sin_theta);
    assert(!(fx_mul_spec(ri, sin_theta) > FX_ONE));
}

/// A polished metal (zero fuzz) that scatters returns the mirror
/// reflection: the outgoing direction is exactly the normalized reflection
/// of the incoming direction about the stored normal (normalized again by
/// ray construction), and the attenuation is the albedo.
pub proof fn lemma_metal_zero_fuzz_mirrors(m: MetalMaterial, ray_in: Vec3, rec: HitRecord, s: u64)
    requires
        m.fuzz == 0,
        metal_scatter_spec(m, ray_in, rec, s).0 is Some,
    ensures
        ({
            let refl_unit = unit_spec(reflect_spec(ray_in, rec.normal));
            &&& refl_unit is Some
            &&& metal_scatter_spec(m, ray_in, rec, s).0.unwrap().1.direction == unit_spec(
                refl_unit.unwrap(),
            ).unwrap()
            &&& metal_scatter_spec(m, ray_in, rec, s).0.unwrap().0 == m.albedo
        }),
{
    let refl = reflect_spec(ray_in, rec.normal);
    let (ruv, s1) = random_unit_vec_spec(s);
    match unit_spec(refl) {
        None => {},
        Some(rn) => {
            lemma_scale_zero(ruv);
            lemma_add_zero(rn);
            assert(add_spec(rn, scale_spec(0, ruv)) == rn);
        },
    }
}

/// Scaling by zero gives the zero vector.
proof fn lemma_scale_zero(v: Vec3)
    ensures
        scale_spec(0, v) == (Vec3 { x: 0, y: 0, z: 0 }),
{
    assert(0 * v.x == 0 && 0 * v.y == 0 && 0 * v.z == 0) by (nonlinear_arith);
}

/// Adding the zero vector changes nothing.
proof fn lemma_add_zero(v: Vec3)
    ensures
        add_spec(v, Vec3 { x: 0, y: 0, z: 0 }) == v,
{
}

} // verus!
