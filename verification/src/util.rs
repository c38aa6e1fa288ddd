//! Sampling helpers and angle conversion.
//!
//! Every random draw threads an explicit `Rng`, and each function's result
//! together with the advanced generator state is pinned to a spec-level
//! mirror, so whole renders are reproducible from a seed.

use vstd::prelude::*;
use crate::fixed::{
    fx_abs, fx_abs_spec, fx_add, fx_add_spec, fx_div, fx_div_spec, fx_mul, fx_mul_spec,
    fx_neg, fx_neg_spec, fx_sqrt, fx_sqrt_spec, fx_sub, fx_sub_spec, tdiv, FX_ONE,
};
use crate::rng::{rng_step, Rng};
use crate::vec3::{
    add_spec, dot_spec, length_squared_spec, neg_spec, scale_spec, sub_spec, unit_spec,
    vec3_spec, Vec3,
};

verus! {

/// The fixed-point representation of pi.
pub const FX_PI: i64 = 205887;

/// The fixed-point representation of 180.
pub const FX_180: i64 = 180 * 65536;

/// How many rejection-sampling attempts are made before falling back to a
/// fixed axis direction.
pub const UNIT_VEC_ATTEMPTS: u32 = 64;

/// Degrees to radians: `d * pi / 180` in fixed point.
pub open spec fn degs_to_rads_spec(degs: i64) -> i64 {
    fx_div_spec(fx_mul_spec(degs, FX_PI), FX_180)
}

pub fn degs_to_rads(degs: i64) -> (r: i64)
    ensures
        r == degs_to_rads_spec(degs),
{
    fx_div(fx_mul(degs, FX_PI), FX_180)
}

/// A draw in `[0, 1)`: the top sixteen bits of the next generator state.
pub open spec fn random_fx_spec(s: u64) -> (i64, u64) {
    let s1 = rng_step(s);
    ((s1 >> 48) as i64, s1)
}

pub fn random_fx(rng: &mut Rng) -> (r: i64)
    ensures
        (r, final(rng).state) == random_fx_spec(old(rng).state),
        0 <= r < FX_ONE,
{
    let s1: u64 = rng.next_u64();
    let top: u64 = s1 >> 48;
    proof {
        assert(s1 >> 48 < 65536u64) by (bit_vector);
    }
    top as i64
}

/// A draw in `[min, max)` (or `min` itself when the range is empty):
/// `min + (max - min) * u` for a unit draw `u`.
pub open spec fn random_range_fx_spec(min: i64, max: i64, s: u64) -> (i64, u64) {
    let (u, s1) = random_fx_spec(s);
    (fx_add_spec(min, fx_mul_spec(fx_sub_spec(max, min), u)), s1)
}

pub fn random_range_fx(rng: &mut Rng, min: i64, max: i64) -> (r: i64)
    requires
        min <= max,
    ensures
        (r, final(rng).state) == random_range_fx_spec(min, max, old(rng).state),
        min <= r,
        min < max ==> r < max,
        min == max ==> r == min,
{
    let u: i64 = random_fx(rng);
    let d: i64 = fx_sub(max, min);
    let off: i64 = fx_mul(d, u);
    proof {
        lemma_scaled_unit_draw_bounds(d as int, u as int);
    }
    fx_add(min, off)
}

/// For `0 <= d` and a unit draw `0 <= u < FX_ONE`, the truncated product
/// `d * u / FX_ONE` lies in `[0, d]`, and strictly under `d` when `d > 0`.
proof fn lemma_scaled_unit_draw_bounds(d: int, u: int)
    requires
        0 <= d,
        0 <= u < FX_ONE,
    ensures
        0 <= tdiv(d * u, FX_ONE as int),
        tdiv(d * u, FX_ONE as int) <= d,
        d > 0 ==> tdiv(d * u, FX_ONE as int) < d,
{
    assert(0 <= d * u && d * u <= (FX_ONE as int) * d && (d > 0 ==> d * u < (FX_ONE as int) * d))
        by (nonlinear_arith)
        requires 0 <= d && 0 <= u < FX_ONE;
    vstd::arithmetic::div_mod::lemma_multiply_divide_le(d * u, FX_ONE as int, d);
    if d > 0 {
        vstd::arithmetic::div_mod::lemma_multiply_divide_lt(d * u, FX_ONE as int, d);
    }
}

/// Three unit draws, one per component.
pub open spec fn random_vec3_spec(s: u64) -> (Vec3, u64) {
    let (x, s1) = random_fx_spec(s);
    let (y, s2) = random_fx_spec(s1);
    let (z, s3) = random_fx_spec(s2);
    (vec3_spec(x, y, z), s3)
}

pub fn random_vec3(rng: &mut Rng) -> (r: Vec3)
    ensures
        (r, final(rng).state) == random_vec3_spec(old(rng).state),
{
    let x: i64 = random_fx(rng);
    let y: i64 = random_fx(rng);
    let z: i64 = random_fx(rng);
    Vec3::new(x, y, z)
}

/// Three range draws, one per component.
pub open spec fn random_range_vec3_spec(min: i64, max: i64, s: u64) -> (Vec3, u64) {
    let (x, s1) = random_range_fx_spec(min, max, s);
    let (y, s2) = random_range_fx_spec(min, max, s1);
    let (z, s3) = random_range_fx_spec(min, max, s2);
    (vec3_spec(x, y, z), s3)
}

pub fn random_range_vec3(rng: &mut Rng, min: i64, max: i64) -> (r: Vec3)
    requires
        min <= max,
    ensures
        (r, final(rng).state) == random_range_vec3_spec(min, max, old(rng).state),
{
    let x: i64 = random_range_fx(rng, min, max);
    let y: i64 = random_range_fx(rng, min, max);
    let z: i64 = random_range_fx(rng, min, max);
    Vec3::new(x, y, z)
}

/// Rejection sampling for a unit vector: draw in the cube `[-1, 1)^3` until
/// the draw lands inside the unit ball (but not at zero), then normalize;
/// after `fuel` failures fall back to the x axis.
pub open spec fn random_unit_vec_fuel_spec(s: u64, fuel: nat) -> (Vec3, u64)
    decreases fuel,
{
    if fuel == 0 {
        (vec3_spec(FX_ONE, 0, 0), s)
    } else {
        let (v, s1) = random_range_vec3_spec((-FX_ONE) as i64, FX_ONE, s);
        let lensq = length_squared_spec(v);
        if 0 < lensq <= FX_ONE {
            match unit_spec(v) {
                Some(u) => (u, s1),
                None => (vec3_spec(FX_ONE, 0, 0), s1),
            }
        } else {
            random_unit_vec_fuel_spec(s1, (fuel - 1) as nat)
        }
    }
}

/// The distribution `random_unit_vec` draws from.
pub open spec fn random_unit_vec_spec(s: u64) -> (Vec3, u64) {
    random_unit_vec_fuel_spec(s, UNIT_VEC_ATTEMPTS as nat)
}

pub fn random_unit_vec(rng: &mut Rng) -> (r: Vec3)
    ensures
        (r, final(rng).state) == random_unit_vec_spec(old(rng).state),
{
    random_unit_vec_fuel(rng, UNIT_VEC_ATTEMPTS)
}

fn random_unit_vec_fuel(rng: &mut Rng, fuel: u32) -> (r: Vec3)
    ensures
        (r, final(rng).state) == random_unit_vec_fuel_spec(old(rng).state, fuel as nat),
    decreases fuel,
{
    if fuel == 0 {
        Vec3::new(FX_ONE, 0, 0)
    } else {
        let v: Vec3 = random_range_vec3(rng, -FX_ONE, FX_ONE);
        let lensq: i64 = v.length_squared();
        if 0 < lensq && lensq <= FX_ONE {
            proof {
                crate::fixed::lemma_fx_sqrt_spec_value(lensq);
                crate::fixed::lemma_sqrt_floor_pos((lensq * FX_ONE) as nat);
            }
            let u: Option<Vec3> = v.unit();
            u.unwrap()
        } else {
            random_unit_vec_fuel(rng, fuel - 1)
        }
    }
}

/// Mirror reflection about a surface normal: `v - 2 (v . n) n`.
pub open spec fn reflect_spec(v: Vec3, n: Vec3) -> Vec3 {
    let d = dot_spec(v, n);
    sub_spec(v, scale_spec(fx_add_spec(d, d), n))
}

pub fn reflect_vec3(v: &Vec3, n: &Vec3) -> (r: Vec3)
    ensures
        r == reflect_spec(*v, *n),
{
    let d: i64 = v.dot(n);
    v.sub(&n.scale(fx_add(d, d)))
}

/// Snell refraction of a unit direction `uv` at a surface with unit normal
/// `n`, for the refractive-index ratio `etai_over_etat`: the tangential
/// component is scaled by the ratio and the perpendicular component is
/// rebuilt from the unit-length constraint.
pub open spec fn refract_spec(uv: Vec3, n: Vec3, etai_over_etat: i64) -> Vec3 {
    let cos_theta = fx_min_spec(dot_spec(neg_spec(uv), n), FX_ONE);
    let r_out_perp = scale_spec(etai_over_etat, add_spec(uv, scale_spec(cos_theta, n)));
    let k = fx_abs_spec(fx_sub_spec(FX_ONE, length_squared_spec(r_out_perp)));
    let r_out_parallel = scale_spec(fx_neg_spec(fx_sqrt_spec(k)), n);
    add_spec(r_out_perp, r_out_parallel)
}

/// The smaller of two fixed-point scalars.
pub open spec fn fx_min_spec(a: i64, b: i64) -> i64 {
    if a < b {
        a
    } else {
        b
    }
}

pub fn refract_vec3(uv: &Vec3, n: &Vec3, etai_over_etat: i64) -> (r: Vec3)
    ensures
        r == refract_spec(*uv, *n, etai_over_etat),
{
    let d: i64 = uv.neg().dot(n);
    let cos_theta: i64 = if d < FX_ONE {
        d
    } else {
        FX_ONE
    };
    let r_out_perp: Vec3 = uv.add(&n.scale(cos_theta)).scale(etai_over_etat);
    let k: i64 = fx_abs(fx_sub(FX_ONE, r_out_perp.length_squared()));
    let r_out_parallel: Vec3 = n.scale(fx_neg(fx_sqrt(k)));
    r_out_perp.add(&r_out_parallel)
}

/// Truncated Taylor series for the sine of `x` (radians, fixed point),
/// accurate near `[0, pi)`: `x - x^3/6 + x^5/120 - x^7/5040 + x^9/362880`.
pub open spec fn fx_sin_spec(x: i64) -> i64 {
    let p2 = fx_mul_spec(x, x);
    let p3 = fx_mul_spec(p2, x);
    let p5 = fx_mul_spec(p3, p2);
    let p7 = fx_mul_spec(p5, p2);
    let p9 = fx_mul_spec(p7, p2);
    fx_add_spec(
        fx_sub_spec(
            fx_add_spec(fx_sub_spec(x, fx_div_spec(p3, 393216)), fx_div_spec(p5, 7864320)),
            fx_div_spec(p7, 330301440),
        ),
        fx_div_spec(p9, 23781703680),
    )
}

pub fn fx_sin(x: i64) -> (r: i64)
    ensures
        r == fx_sin_spec(x),
{
    let p2: i64 = fx_mul(x, x);
    let p3: i64 = fx_mul(p2, x);
    let p5: i64 = fx_mul(p3, p2);
    let p7: i64 = fx_mul(p5, p2);
    let p9: i64 = fx_mul(p7, p2);
    fx_add(
        fx_sub(
            fx_add(fx_sub(x, fx_div(p3, 393216)), fx_div(p5, 7864320)),
            fx_div(p7, 330301440),
        ),
        fx_div(p9, 23781703680),
    )
}

/// Truncated Taylor series for the cosine of `x` (radians, fixed point),
/// accurate near `[0, pi)`:
/// `1 - x^2/2 + x^4/24 - x^6/720 + x^8/40320 - x^10/3628800`.
pub open spec fn fx_cos_spec(x: i64) -> i64 {
    let p2 = fx_mul_spec(x, x);
    let p4 = fx_mul_spec(p2, p2);
    let p6 = fx_mul_spec(p4, p2);
    let p8 = fx_mul_spec(p6, p2);
    let p10 = fx_mul_spec(p8, p2);
    fx_sub_spec(
        fx_add_spec(
            fx_sub_spec(
                fx_add_spec(fx_sub_spec(FX_ONE, fx_div_spec(p2, 131072)), fx_div_spec(p4, 1572864)),
                fx_div_spec(p6, 47185920),
            ),
            fx_div_spec(p8, 2642411520),
        ),
        fx_div_spec(p10, 237817036800),
    )
}

pub fn fx_cos(x: i64) -> (r: i64)
    ensures
        r == fx_cos_spec(x),
{
    let p2: i64 = fx_mul(x, x);
    let p4: i64 = fx_mul(p2, p2);
    let p6: i64 = fx_mul(p4, p2);
    let p8: i64 = fx_mul(p6, p2);
    let p10: i64 = fx_mul(p8, p2);
    fx_sub(
        fx_add(
            fx_sub(
                fx_add(fx_sub(FX_ONE, fx_div(p2, 131072)), fx_div(p4, 1572864)),
                fx_div(p6, 47185920),
            ),
            fx_div(p8, 2642411520),
        ),
        fx_div(p10, 237817036800),
    )
}

/// The tangent of `x` as the quotient of the series above; nothing when the
/// cosine is not positive (the angle is too close to a right angle).
pub open spec fn fx_tan_spec(x: i64) -> Option<i64> {
    let c = fx_cos_spec(x);
    if c <= 0 {
        None
    } else {
        Some(fx_div_spec(fx_sin_spec(x), c))
    }
}

pub fn fx_tan(x: i64) -> (r: Option<i64>)
    ensures
        r == fx_tan_spec(x),
{
    let c: i64 = fx_cos(x);
    if c <= 0 {
        None
    } else {
        Some(fx_div(fx_sin(x), c))
    }
}

/// A unit draw flipped onto the side of `normal`.
pub open spec fn random_unit_vec_on_hemisphere_spec(normal: Vec3, s: u64) -> (Vec3, u64) {
    let (v, s1) = random_unit_vec_spec(s);
    if dot_spec(v, normal) > 0 {
        (v, s1)
    } else {
        (neg_spec(v), s1)
    }
}

pub fn random_unit_vec_on_hemisphere(rng: &mut Rng, normal: &Vec3) -> (r: Vec3)
    ensures
        (r, final(rng).state) == random_unit_vec_on_hemisphere_spec(*normal, old(rng).state),
{
    let v: Vec3 = random_unit_vec(rng);
    if v.dot(normal) > 0 {
        v
    } else {
        v.neg()
    }
}

} // verus!
