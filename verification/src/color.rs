//! Color handling: gamma correction, clamping, and conversion of a linear
//! color sample to the byte triple a bitmap row carries.

use vstd::prelude::*;
use crate::fixed::{
    fx_sqrt, fx_sqrt_spec, is_sqrt, lemma_sqrt_floor_is_sqrt, lemma_sqrt_unique, sqrt_floor,
    tdiv, FX_ONE,
};
use crate::interval::Interval;
use crate::vec3::Vec3;

verus! {

/// Colors are vectors: x is red, y is green, z is blue, one is full
/// intensity of a channel.
pub type Color = Vec3;

/// The upper clamp bound for a channel before byte scaling, just under one:
/// it keeps the scaled byte below 256.
pub const FX_INTENSITY_MAX: i64 = 65470;

/// One byte channel of a pixel.
#[derive(Clone, Copy, PartialEq, Eq, Structural, Debug)]
pub struct Rgb {
    pub r: u8,
    pub g: u8,
    pub b: u8,
}

/// Gamma-2 correction: the square root of a positive linear component.
pub open spec fn linear_to_gamma_spec(c: i64) -> i64 {
    if c > 0 {
        fx_sqrt_spec(c)
    } else {
        0
    }
}

pub fn linear_to_gamma(c: i64) -> (r: i64)
    ensures
        r == linear_to_gamma_spec(c),
{
    if c > 0 {
        fx_sqrt(c)
    } else {
        0
    }
}

/// A linear channel as a byte: gamma-corrected, clamped into
/// `[0, FX_INTENSITY_MAX]`, then scaled by 256.
pub open spec fn channel_byte_spec(c: i64) -> u8 {
    let clamped = (Interval { min: 0, max: FX_INTENSITY_MAX }).clamp_spec(linear_to_gamma_spec(c));
    tdiv(clamped * 256, FX_ONE as int) as u8
}

pub fn channel_byte(c: i64) -> (r: u8)
    ensures
        r == channel_byte_spec(c),
{
    let intensity: Interval = Interval::interval(0, FX_INTENSITY_MAX);
    let g: i64 = linear_to_gamma(c);
    let clamped: i64 = intensity.clamp(g);
    proof {
        if c > 0 {
            crate::fixed::lemma_fx_sqrt_spec_value(c);
        }
        vstd::arithmetic::div_mod::lemma_multiply_divide_lt(
            clamped * 256,
            FX_ONE as int,
            256,
        );
        assert(tdiv(clamped * 256, FX_ONE as int) == (clamped * 256) / (FX_ONE as int));
    }
    (((clamped as u64) * 256) / (FX_ONE as u64)) as u8
}

/// The byte triple for a linear color sample.
pub open spec fn color_rgb_spec(c: Color) -> Rgb {
    Rgb { r: channel_byte_spec(c.x), g: channel_byte_spec(c.y), b: channel_byte_spec(c.z) }
}

pub fn color_to_rgb(c: &Color) -> (r: Rgb)
    ensures
        r == color_rgb_spec(*c),
{
    Rgb { r: channel_byte(c.x), g: channel_byte(c.y), b: channel_byte(c.z) }
}

/// A channel at exactly full intensity maps to the brightest byte: the
/// clamp below one keeps the scale-by-256 from overflowing past 255.
pub proof fn lemma_full_intensity_is_brightest_byte()
    ensures
        channel_byte_spec(FX_ONE) == 255,
{
    assert(is_sqrt((FX_ONE * FX_ONE) as int, FX_ONE as int)) by (nonlinear_arith);
    lemma_sqrt_floor_is_sqrt((FX_ONE * FX_ONE) as nat);
    lemma_sqrt_unique(
        (FX_ONE * FX_ONE) as int,
        sqrt_floor((FX_ONE * FX_ONE) as nat) as int,
        FX_ONE as int,
    );
    assert(linear_to_gamma_spec(FX_ONE) == FX_ONE);
    assert(channel_byte_spec(FX_ONE) == tdiv(65470int * 256, 65536int) as u8);
    assert(16760320int / 65536int == 255int);
    assert(tdiv(65470int * 256, 65536int) == 255);
}

} // verus!
