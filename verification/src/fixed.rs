//! Signed 64-bit fixed-point scalars with 16 fractional bits.
//!
//! A scalar `x: i64` stands for the rational number `x / FX_ONE`. Every
//! operation saturates at the `i64` range instead of overflowing, and every
//! rounding step truncates toward zero, so each executable function below is
//! pinned to an exact integer-valued specification.

use vstd::prelude::*;

verus! {

/// The fixed-point representation of one: 2^16.
pub const FX_ONE: i64 = 65536;

/// The fixed-point representation of one half.
pub const FX_HALF: i64 = 32768;

/// Saturation of a mathematical integer into the `i64` range.
pub open spec fn sat64(x: int) -> i64 {
    if x > i64::MAX {
        i64::MAX
    } else if x < i64::MIN {
        i64::MIN
    } else {
        x as i64
    }
}

/// Division truncating toward zero (the rounding used by every fixed-point
/// operation here), defined for any nonzero divisor.
pub open spec fn tdiv(a: int, b: int) -> int {
    let m = abs_int(a) / abs_int(b);
    if (a >= 0) == (b >= 0) {
        m
    } else {
        -m
    }
}

/// Absolute value of a mathematical integer.
pub open spec fn abs_int(a: int) -> int {
    if a >= 0 {
        a
    } else {
        -a
    }
}

/// Fixed-point addition: the exact sum, saturated.
pub open spec fn fx_add_spec(a: i64, b: i64) -> i64 {
    sat64(a + b)
}

/// Fixed-point subtraction: the exact difference, saturated.
pub open spec fn fx_sub_spec(a: i64, b: i64) -> i64 {
    sat64(a - b)
}

/// Fixed-point negation (saturated, so negating `i64::MIN` gives `i64::MAX`).
pub open spec fn fx_neg_spec(a: i64) -> i64 {
    sat64(-a)
}

/// Fixed-point multiplication: `(a * b) / FX_ONE`, truncated then saturated.
pub open spec fn fx_mul_spec(a: i64, b: i64) -> i64 {
    sat64(tdiv(a * b, FX_ONE as int))
}

/// Fixed-point division: `(a * FX_ONE) / b`, truncated then saturated.
pub open spec fn fx_div_spec(a: i64, b: i64) -> i64 {
    sat64(tdiv(a * FX_ONE, b as int))
}

pub fn fx_add(a: i64, b: i64) -> (r: i64)
    ensures
        r == fx_add_spec(a, b),
{
    let s: i128 = a as i128 + b as i128;
    clamp_i128(s)
}

pub fn fx_sub(a: i64, b: i64) -> (r: i64)
    ensures
        r == fx_sub_spec(a, b),
{
    let s: i128 = a as i128 - b as i128;
    clamp_i128(s)
}

pub fn fx_neg(a: i64) -> (r: i64)
    ensures
        r == fx_neg_spec(a),
{
    let s: i128 = -(a as i128);
    clamp_i128(s)
}

/// Clamp a 128-bit intermediate back into the `i64` range.
fn clamp_i128(s: i128) -> (r: i64)
    ensures
        r == sat64(s as int),
{
    if s > i64::MAX as i128 {
        i64::MAX
    } else if s < i64::MIN as i128 {
        i64::MIN
    } else {
        s as i64
    }
}

/// Magnitude of an `i64` as a `u128` (total, even at `i64::MIN`).
fn mag64(a: i64) -> (r: u128)
    ensures
        r == abs_int(a as int),
{
    if a >= 0 {
        a as u128
    } else {
        (-(a as i128)) as u128
    }
}

/// Reassemble a sign and a magnitude into a saturated `i64`.
fn from_sign_mag(neg: bool, m: u128) -> (r: i64)
    ensures
        neg ==> r == sat64(-(m as int)),
        !neg ==> r == sat64(m as int),
{
    if neg {
        if m > 0x8000_0000_0000_0000u128 {
            assert(-(m as int) < i64::MIN);
            i64::MIN
        } else {
            (-(m as i128)) as i64
        }
    } else {
        if m > i64::MAX as u128 {
            i64::MAX
        } else {
            m as i64
        }
    }
}

pub fn fx_mul(a: i64, b: i64) -> (r: i64)
    ensures
        r == fx_mul_spec(a, b),
{
    let neg: bool = (a < 0) != (b < 0);
    let ma: u128 = mag64(a);
    let mb: u128 = mag64(b);
    proof {
        assert(ma * mb <= 0x8000_0000_0000_0000u128 * 0x8000_0000_0000_0000u128)
            by (nonlinear_arith)
            requires ma <= 0x8000_0000_0000_0000u128 && mb <= 0x8000_0000_0000_0000u128;
    }
    let p: u128 = ma * mb;
    let q: u128 = p / (FX_ONE as u128);
    proof {
        lemma_sign_mag_product(a as int, b as int, FX_ONE as int);
        assert(p == abs_int(a * b));
        assert(q == abs_int(a * b) / abs_int(FX_ONE as int));
        if a * b >= 0 {
            assert(!neg || q == 0) by (nonlinear_arith)
                requires a * b >= 0 && q == abs_int(a * b) / abs_int(FX_ONE as int)
                    && neg == ((a < 0) != (b < 0));
        } else {
            assert(neg) by (nonlinear_arith)
                requires a * b < 0 && neg == ((a < 0) != (b < 0));
        }
    }
    from_sign_mag(neg, q)
}

pub fn fx_div(a: i64, b: i64) -> (r: i64)
    requires
        b != 0,
    ensures
        r == fx_div_spec(a, b),
{
    let neg: bool = (a < 0) != (b < 0);
    let ma: u128 = mag64(a);
    let mb: u128 = mag64(b);
    let p: u128 = ma * (FX_ONE as u128);
    let q: u128 = p / mb;
    proof {
        lemma_sign_mag_product(a as int, FX_ONE as int, b as int);
        assert(abs_int(a * FX_ONE) / abs_int(b as int)
            == (abs_int(a as int) * FX_ONE) / abs_int(b as int));
    }
    from_sign_mag(neg, q)
}

/// Fixed-point absolute value (saturated, so `|i64::MIN|` gives `i64::MAX`).
pub open spec fn fx_abs_spec(a: i64) -> i64 {
    sat64(abs_int(a as int))
}

pub fn fx_abs(a: i64) -> (r: i64)
    ensures
        r == fx_abs_spec(a),
        0 <= r,
{
    if a >= 0 {
        a
    } else if a == i64::MIN {
        i64::MAX
    } else {
        -a
    }
}

/// Truncated division is odd in its dividend.
pub proof fn lemma_tdiv_neg(a: int, b: int)
    requires
        b != 0,
    ensures
        tdiv(-a, b) == -tdiv(a, b),
{
    assert(abs_int(-a) == abs_int(a));
    if a == 0 {
    } else if (a >= 0) == (b >= 0) {
        assert((-a >= 0) != (b >= 0));
    } else {
        assert((-a >= 0) == (b >= 0));
    }
}

/// The magnitude of a truncated quotient is at most the dividend's.
pub proof fn lemma_tdiv_mag_le(a: int, b: int)
    requires
        b != 0,
        1 <= abs_int(b),
    ensures
        abs_int(tdiv(a, b)) <= abs_int(a),
{
    let m = abs_int(a) / abs_int(b);
    assert(0 <= m <= abs_int(a)) by (nonlinear_arith)
        requires m == abs_int(a) / abs_int(b) && 1 <= abs_int(b) && 0 <= abs_int(a);
}

/// Truncated division by a positive divisor is monotone in the dividend.
pub proof fn lemma_tdiv_monotone(x: int, y: int, d: int)
    requires
        0 < d,
        x <= y,
    ensures
        tdiv(x, d) <= tdiv(y, d),
{
    if 0 <= x {
        vstd::arithmetic::div_mod::lemma_div_is_ordered(x, y, d);
    } else if y < 0 {
        vstd::arithmetic::div_mod::lemma_div_is_ordered(-y, -x, d);
    } else {
        assert(tdiv(x, d) == -(abs_int(x) / d));
        vstd::arithmetic::div_mod::lemma_div_pos_is_pos(-x, d);
        vstd::arithmetic::div_mod::lemma_div_pos_is_pos(y, d);
    }
}

/// Scaling by `FX_ONE` and dividing it out again is exact.
pub proof fn lemma_tdiv_scale_exact(x: int)
    ensures
        tdiv(x * FX_ONE, FX_ONE as int) == x,
{
    if x >= 0 {
        assert(abs_int(x * FX_ONE) == abs_int(x) * FX_ONE) by (nonlinear_arith);
        vstd::arithmetic::div_mod::lemma_div_multiples_vanish(abs_int(x), FX_ONE as int);
        assert((FX_ONE as int) * abs_int(x) == abs_int(x) * FX_ONE);
    } else {
        assert(abs_int(x * FX_ONE) == abs_int(x) * FX_ONE) by (nonlinear_arith);
        vstd::arithmetic::div_mod::lemma_div_multiples_vanish(abs_int(x), FX_ONE as int);
        assert((FX_ONE as int) * abs_int(x) == abs_int(x) * FX_ONE);
        assert(x * FX_ONE < 0) by (nonlinear_arith)
            requires x < 0;
    }
}

/// `r` is the integer square root of `n` rounded down.
pub open spec fn is_sqrt(n: int, r: int) -> bool {
    0 <= r && r * r <= n < (r + 1) * (r + 1)
}

/// The integer square root, rounded down, as a function.
pub open spec fn sqrt_floor(n: nat) -> nat
    decreases n,
{
    if n == 0 {
        0
    } else {
        let r = sqrt_floor((n - 1) as nat);
        if (r + 1) * (r + 1) <= n {
            r + 1
        } else {
            r
        }
    }
}

/// `sqrt_floor` meets `is_sqrt`.
pub proof fn lemma_sqrt_floor_is_sqrt(n: nat)
    ensures
        is_sqrt(n as int, sqrt_floor(n) as int),
    decreases n,
{
    if n > 0 {
        lemma_sqrt_floor_is_sqrt((n - 1) as nat);
        let r = sqrt_floor((n - 1) as nat);
        if (r + 1) * (r + 1) <= n {
            assert(n < (r + 2) * (r + 2)) by (nonlinear_arith)
                requires n <= (r + 1) * (r + 1) + 0;
        }
    }
}

/// A positive integer has a positive rounded-down square root.
pub proof fn lemma_sqrt_floor_pos(n: nat)
    requires
        1 <= n,
    ensures
        1 <= sqrt_floor(n),
{
    lemma_sqrt_floor_is_sqrt(n);
    let r: int = sqrt_floor(n) as int;
    if r == 0 {
        assert((r + 1) * (r + 1) == 1) by (nonlinear_arith)
            requires r == 0;
        assert(false);
    }
}

/// The rounded-down square root is monotone against an upper square.
pub proof fn lemma_sqrt_floor_le(n: nat, b: nat)
    requires
        n < (b + 1) * (b + 1),
    ensures
        sqrt_floor(n) <= b,
{
    lemma_sqrt_floor_is_sqrt(n);
    let r: int = sqrt_floor(n) as int;
    assert(r <= b) by (nonlinear_arith)
        requires 0 <= r && r * r <= n && n < (b + 1) * (b + 1) && 0 <= b;
}

/// The value of `fx_sqrt_spec` is the rounded-down square root itself: the
/// narrowing cast inside it never truncates.
pub proof fn lemma_fx_sqrt_spec_value(a: i64)
    requires
        0 <= a,
    ensures
        fx_sqrt_spec(a) as int == sqrt_floor((a * FX_ONE) as nat),
        0 <= fx_sqrt_spec(a) <= 0xffff_ffff_ffi64,
{
    let n: nat = (a * FX_ONE) as nat;
    assert(n < (0x1_0000_0000_00nat) * (0x1_0000_0000_00nat)) by (nonlinear_arith)
        requires n == a * FX_ONE && 0 <= a <= i64::MAX && FX_ONE == 65536i64;
    lemma_sqrt_floor_le(n, 0xffff_ffff_ffnat);
}

/// Only one integer is the rounded-down square root of `n`.
pub proof fn lemma_sqrt_unique(n: int, r1: int, r2: int)
    requires
        is_sqrt(n, r1),
        is_sqrt(n, r2),
    ensures
        r1 == r2,
{
    assert(r1 == r2) by (nonlinear_arith)
        requires 0 <= r1 && 0 <= r2 && r1 * r1 <= n < (r1 + 1) * (r1 + 1)
            && r2 * r2 <= n < (r2 + 1) * (r2 + 1);
}

/// Integer square root of a `u128`, rounded down, by bisection.
fn isqrt(n: u128) -> (r: u128)
    ensures
        r == sqrt_floor(n as nat),
        is_sqrt(n as int, r as int),
{
    let mut lo: u128 = 0;
    let mut hi: u128 = 0x1_0000_0000_0000_0000u128;
    proof {
        assert((hi as int) * (hi as int) > n as int) by (nonlinear_arith)
            requires hi == 0x1_0000_0000_0000_0000u128 && n <= u128::MAX;
    }
    while hi - lo > 1
        invariant
            lo < hi,
            hi <= 0x1_0000_0000_0000_0000u128,
            (lo as int) * (lo as int) <= n as int,
            (hi as int) * (hi as int) > n as int,
        decreases hi - lo,
    {
        let mid: u128 = lo + (hi - lo) / 2;
        proof {
            assert((mid as int) * (mid as int) < 0x1_0000_0000_0000_0000_0000_0000_0000_0000int)
                by (nonlinear_arith)
                requires mid < 0x1_0000_0000_0000_0000u128;
        }
        if mid * mid <= n {
            lo = mid;
        } else {
            hi = mid;
        }
    }
    proof {
        lemma_sqrt_floor_is_sqrt(n as nat);
        lemma_sqrt_unique(n as int, lo as int, sqrt_floor(n as nat) as int);
    }
    lo
}

/// The fixed-point square root: `sqrt(a / FX_ONE) * FX_ONE`, rounded down,
/// which is the integer square root of `a * FX_ONE`.
pub open spec fn fx_sqrt_spec(a: i64) -> i64 {
    sqrt_floor((a * FX_ONE) as nat) as i64
}

pub fn fx_sqrt(a: i64) -> (r: i64)
    requires
        0 <= a,
    ensures
        r == fx_sqrt_spec(a),
        0 <= r,
        is_sqrt((a * FX_ONE) as int, r as int),
{
    let am: u128 = a as u128;
    proof {
        assert(am * (FX_ONE as u128) < 0x1_0000_0000_0000_0000_0000_0000u128)
            by (nonlinear_arith)
            requires am <= i64::MAX as u128 && FX_ONE == 65536i64;
    }
    let n: u128 = am * (FX_ONE as u128);
    let s: u128 = isqrt(n);
    proof {
        assert(s < 0x1_0000_0000_0000u128) by (nonlinear_arith)
            requires (s as int) * (s as int) <= n as int
                && n < 0x1_0000_0000_0000_0000_0000_0000u128;
    }
    s as i64
}

/// `|x * y| == |x| * |y|`, and the sign of a quotient of a product:
/// relates `tdiv(x * y, d)` to the magnitude computation used by the
/// executable code.
proof fn lemma_sign_mag_product(x: int, y: int, d: int)
    requires
        d != 0,
    ensures
        abs_int(x * y) == abs_int(x) * abs_int(y),
        ((x * y >= 0) == (d >= 0)) ==> tdiv(x * y, d) == abs_int(x * y) / abs_int(d),
        ((x * y >= 0) != (d >= 0)) ==> tdiv(x * y, d) == -(abs_int(x * y) / abs_int(d)),
{
    assert(abs_int(x * y) == abs_int(x) * abs_int(y)) by (nonlinear_arith);
}

} // verus!
