use raytracer::color::{color_to_rgb, Rgb};
use raytracer::fixed::{fx_abs, fx_add, fx_div, fx_mul, fx_neg, fx_sqrt, fx_sub, FX_ONE};
use raytracer::interval::Interval;
use raytracer::rng::Rng;
use raytracer::util::{
    degs_to_rads, fx_cos, fx_sin, fx_tan, random_fx, random_range_fx, random_unit_vec,
    random_unit_vec_on_hemisphere, reflect_vec3, refract_vec3, FX_PI,
};
use raytracer::vec3::Vec3;

#[test]
fn fixed_point_arithmetic_exact_values() {
    // 2 * 1.5 == 3
    assert_eq!(fx_mul(131072, 98304), 196608);
    // 1 / 2 == 0.5
    assert_eq!(fx_div(FX_ONE, 131072), 32768);
    // sqrt(4) == 2
    assert_eq!(fx_sqrt(4 * FX_ONE), 2 * FX_ONE);
    // sqrt(1) == 1 (exact, needed by the gamma step)
    assert_eq!(fx_sqrt(FX_ONE), FX_ONE);
    assert_eq!(fx_add(FX_ONE, FX_ONE), 131072);
    assert_eq!(fx_sub(FX_ONE, 131072), -65536);
    assert_eq!(fx_neg(-5), 5);
    assert_eq!(fx_abs(-131072), 131072);
}

#[test]
fn fixed_point_saturates_instead_of_wrapping() {
    assert_eq!(fx_add(i64::MAX, 1), i64::MAX);
    assert_eq!(fx_sub(i64::MIN, 1), i64::MIN);
    assert_eq!(fx_mul(i64::MAX, i64::MAX), i64::MAX);
    assert_eq!(fx_neg(i64::MIN), i64::MAX);
}

#[test]
fn interval_contains_surrounds_clamp() {
    let i = Interval::interval(0, 100);
    assert!(i.contains(0) && i.contains(100) && i.contains(50));
    assert!(!i.contains(-1) && !i.contains(101));
    assert!(i.surrounds(50) && !i.surrounds(0) && !i.surrounds(100));
    assert_eq!(i.clamp(-7), 0);
    assert_eq!(i.clamp(107), 100);
    assert_eq!(i.clamp(42), 42);
    assert_eq!(i.size(), 100);
}

#[test]
fn interval_sentinels() {
    let e = Interval::empty();
    assert!(!e.contains(0) && !e.contains(i64::MAX) && !e.contains(i64::MIN));
    let u = Interval::universe();
    assert!(u.contains(0) && u.contains(i64::MAX) && u.contains(i64::MIN));
}

#[test]
fn degrees_to_radians_straight_angle_is_pi() {
    assert_eq!(degs_to_rads(180 * FX_ONE), FX_PI);
    assert_eq!(degs_to_rads(90 * FX_ONE), FX_PI / 2);
    assert_eq!(degs_to_rads(0), 0);
}

#[test]
fn trig_values_near_known_points() {
    // sin(pi/2) close to 1, cos(pi/2) close to 0, tan(pi/4) close to 1
    let half_pi = FX_PI / 2;
    let quarter_pi = FX_PI / 4;
    assert!((fx_sin(half_pi) - FX_ONE).abs() <= 16);
    assert!(fx_cos(half_pi).abs() <= 16);
    let t = fx_tan(quarter_pi).unwrap();
    assert!((t - FX_ONE).abs() <= 16);
    // past a right angle the cosine is negative and the tangent is rejected
    assert!(fx_tan(FX_PI).is_none());
}

#[test]
fn vector_algebra_exact_values() {
    let a = Vec3::new(FX_ONE, 2 * FX_ONE, 3 * FX_ONE);
    let b = Vec3::new(4 * FX_ONE, 5 * FX_ONE, 6 * FX_ONE);
    assert_eq!(a.add(&b), Vec3::new(5 * FX_ONE, 7 * FX_ONE, 9 * FX_ONE));
    assert_eq!(b.sub(&a), Vec3::new(3 * FX_ONE, 3 * FX_ONE, 3 * FX_ONE));
    // 1*4 + 2*5 + 3*6 = 32
    assert_eq!(a.dot(&b), 32 * FX_ONE);
    // (1,2,3) x (4,5,6) = (-3, 6, -3)
    assert_eq!(
        a.cross(&b),
        Vec3::new(-3 * FX_ONE, 6 * FX_ONE, -3 * FX_ONE)
    );
    assert_eq!(a.length_squared(), 14 * FX_ONE);
    // |(0,3,4)| = 5
    assert_eq!(Vec3::new(0, 3 * FX_ONE, 4 * FX_ONE).length(), 5 * FX_ONE);
    assert_eq!(a.neg(), Vec3::new(-FX_ONE, -2 * FX_ONE, -3 * FX_ONE));
    assert_eq!(a.scale(2 * FX_ONE), Vec3::new(2 * FX_ONE, 4 * FX_ONE, 6 * FX_ONE));
    assert_eq!(
        a.mul_elem(&b),
        Vec3::new(4 * FX_ONE, 10 * FX_ONE, 18 * FX_ONE)
    );
}

#[test]
fn unit_vector_normalizes_and_rejects_zero() {
    let v = Vec3::new(0, 0, -3 * FX_ONE);
    assert_eq!(v.unit().unwrap(), Vec3::new(0, 0, -FX_ONE));
    assert!(Vec3::new(0, 0, 0).unit().is_none());
}

#[test]
fn reflect_is_exact_mirror() {
    // reflecting (1,0,-1) about the z axis normal flips z
    let v = Vec3::new(FX_ONE, 0, -FX_ONE);
    let n = Vec3::new(0, 0, FX_ONE);
    assert_eq!(reflect_vec3(&v, &n), Vec3::new(FX_ONE, 0, FX_ONE));
}

#[test]
fn refract_at_unit_ratio_normal_incidence_is_identity() {
    let uv = Vec3::new(0, 0, -FX_ONE);
    let n = Vec3::new(0, 0, FX_ONE);
    assert_eq!(refract_vec3(&uv, &n, FX_ONE), uv);
}

#[test]
fn rng_is_deterministic_and_seed_zero_is_replaced() {
    let mut a = Rng::new(12345);
    let mut b = Rng::new(12345);
    for _ in 0..10 {
        assert_eq!(a.next_u64(), b.next_u64());
    }
    assert_ne!(Rng::new(0).state, 0);
}

#[test]
fn entropy_seeded_stream_is_usable() {
    // the entropy wrapper must yield a working stream (never the stuck
    // zero state)
    let mut r = Rng::from_entropy();
    assert_ne!(r.state, 0);
    let _ = r.next_u64();
    assert_ne!(r.state, 0);
}

#[test]
fn random_draws_stay_in_range() {
    let mut rng = Rng::new(7);
    for _ in 0..100 {
        let u = random_fx(&mut rng);
        assert!((0..FX_ONE).contains(&u));
        let v = random_range_fx(&mut rng, -FX_ONE, FX_ONE);
        assert!(-FX_ONE <= v && v < FX_ONE);
    }
    assert_eq!(random_range_fx(&mut rng, 42, 42), 42);
}

#[test]
fn random_unit_vectors_have_unit_length() {
    let mut rng = Rng::new(99);
    for _ in 0..50 {
        let v = random_unit_vec(&mut rng);
        // squared length within rounding of one
        assert!((v.length_squared() - FX_ONE).abs() <= 64);
    }
}

#[test]
fn hemisphere_draws_point_along_normal() {
    let mut rng = Rng::new(4242);
    let n = Vec3::new(0, FX_ONE, 0);
    for _ in 0..50 {
        let v = random_unit_vec_on_hemisphere(&mut rng, &n);
        assert!(v.dot(&n) >= 0);
    }
}

#[test]
fn full_intensity_channel_maps_to_brightest_byte() {
    let rgb = color_to_rgb(&Vec3::new(FX_ONE, FX_ONE, FX_ONE));
    assert_eq!(rgb, Rgb { r: 255, g: 255, b: 255 });
}

#[test]
fn gamma_and_scale_of_quarter_intensity() {
    // linear 0.25 -> gamma 0.5 -> byte 128
    let rgb = color_to_rgb(&Vec3::new(FX_ONE / 4, 0, -FX_ONE));
    assert_eq!(rgb, Rgb { r: 128, g: 0, b: 0 });
}

#[test]
fn overbright_channel_is_clamped() {
    let rgb = color_to_rgb(&Vec3::new(100 * FX_ONE, 0, 0));
    assert_eq!(rgb.r, 255);
}
