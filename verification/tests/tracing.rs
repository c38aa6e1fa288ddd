use raytracer::camera::{Camera, CameraError};
use raytracer::fixed::FX_ONE;
use raytracer::hittable::HitRecord;
use raytracer::hittable_list::HittableList;
use raytracer::interval::Interval;
use raytracer::material::{
    DielectricMaterial, LambertianMaterial, Material, MetalMaterial,
};
use raytracer::ray::Ray;
use raytracer::rng::Rng;
use raytracer::sphere::{sphere, Sphere};
use raytracer::vec3::Vec3;

fn lambertian_gray() -> Material {
    Material::Lambertian(LambertianMaterial::new(Vec3::new(
        FX_ONE / 2,
        FX_ONE / 2,
        FX_ONE / 2,
    )))
}

fn unit_sphere_at(z: i64, radius: i64) -> Sphere {
    sphere(Vec3::new(0, 0, z), radius, lambertian_gray()).unwrap()
}

#[test]
fn sphere_rejects_negative_radius() {
    assert!(sphere(Vec3::new(0, 0, 0), -1, lambertian_gray()).is_none());
    assert!(sphere(Vec3::new(0, 0, 0), 0, lambertian_gray()).is_some());
}

#[test]
fn ray_aimed_away_misses() {
    // sphere straight ahead, ray fired the other way and far off axis
    let s = unit_sphere_at(-2 * FX_ONE, FX_ONE / 2);
    let up = Ray::new(Vec3::new(0, 0, 0), Vec3::new(0, FX_ONE, 0)).unwrap();
    assert!(s.hit(&up, Interval::interval(1, i64::MAX)).is_none());
    let sideways = Ray::new(Vec3::new(5 * FX_ONE, 0, 0), Vec3::new(0, 0, -FX_ONE)).unwrap();
    assert!(s.hit(&sideways, Interval::interval(1, i64::MAX)).is_none());
}

#[test]
fn axial_hit_distance_is_gap() {
    // origin at distance 2 from the center, radius 1/2: the near hit is at
    // t = 1.5 exactly
    let s = unit_sphere_at(-2 * FX_ONE, FX_ONE / 2);
    let r = Ray::new(Vec3::new(0, 0, 0), Vec3::new(0, 0, -FX_ONE)).unwrap();
    let rec = s.hit(&r, Interval::interval(1, i64::MAX)).unwrap();
    assert_eq!(rec.t, 3 * FX_ONE / 2);
    assert!(rec.front_face);
}

#[test]
fn inside_ray_takes_far_root() {
    // a ray starting at the center exits through the far surface
    let s = unit_sphere_at(0, FX_ONE);
    let r = Ray::new(Vec3::new(0, 0, 0), Vec3::new(0, 0, -FX_ONE)).unwrap();
    let rec = s.hit(&r, Interval::interval(66, i64::MAX)).unwrap();
    assert_eq!(rec.t, FX_ONE);
    // the ray leaves from inside: not a front face, and the stored normal
    // opposes the ray
    assert!(!rec.front_face);
    assert!(rec.normal.dot(&r.direction) <= 0);
}

#[test]
fn front_face_matches_outward_normal_side() {
    let r = Ray::new(Vec3::new(0, 0, 0), Vec3::new(0, 0, -FX_ONE)).unwrap();
    let outward = Vec3::new(0, 0, FX_ONE);
    let rec = HitRecord::new(Vec3::new(0, 0, -FX_ONE), outward, FX_ONE, &r, lambertian_gray());
    assert!(rec.front_face);
    assert_eq!(rec.normal, outward);

    let inward = Vec3::new(0, 0, -FX_ONE);
    let rec2 = HitRecord::new(Vec3::new(0, 0, -FX_ONE), inward, FX_ONE, &r, lambertian_gray());
    assert!(!rec2.front_face);
    assert_eq!(rec2.normal, Vec3::new(0, 0, FX_ONE));
    assert!(rec2.normal.dot(&r.direction) <= 0);
}

#[test]
fn scene_returns_nearest_member_hit() {
    let near = unit_sphere_at(-2 * FX_ONE, FX_ONE / 2);
    let far = unit_sphere_at(-6 * FX_ONE, FX_ONE / 2);
    let mut world = HittableList::hittable_list(None);
    world.add(far);
    world.add(near);
    let r = Ray::new(Vec3::new(0, 0, 0), Vec3::new(0, 0, -FX_ONE)).unwrap();
    let iv = Interval::interval(66, i64::MAX);
    let from_world = world.hit(&r, iv).unwrap();
    let from_near = near.hit(&r, iv).unwrap();
    assert_eq!(from_world, from_near);
    assert_eq!(from_world.t, 3 * FX_ONE / 2);
}

#[test]
fn empty_scene_never_hits() {
    let world = HittableList::hittable_list(None);
    let r = Ray::new(Vec3::new(0, 0, 0), Vec3::new(0, 0, -FX_ONE)).unwrap();
    assert!(world.hit(&r, Interval::universe()).is_none());
}

#[test]
fn scene_add_and_clear() {
    let mut world = HittableList::hittable_list(Some(unit_sphere_at(0, FX_ONE)));
    assert_eq!(world.objects.len(), 1);
    world.add(unit_sphere_at(-FX_ONE, FX_ONE));
    assert_eq!(world.objects.len(), 2);
    world.clear();
    assert_eq!(world.objects.len(), 0);
}

fn front_hit_record(mat: Material) -> (Ray, HitRecord) {
    let r = Ray::new(Vec3::new(0, 0, 0), Vec3::new(0, 0, -FX_ONE)).unwrap();
    let rec = HitRecord::new(
        Vec3::new(0, 0, -FX_ONE),
        Vec3::new(0, 0, FX_ONE),
        FX_ONE,
        &r,
        mat,
    );
    (r, rec)
}

#[test]
fn lambertian_always_scatters() {
    let albedo = Vec3::new(FX_ONE / 2, FX_ONE / 4, FX_ONE / 8);
    let mat = Material::Lambertian(LambertianMaterial::new(albedo));
    let (r, rec) = front_hit_record(mat);
    let mut rng = Rng::new(1);
    for _ in 0..50 {
        let (attenuation, _scattered) = mat.scatter(&r.direction, &rec, &mut rng).unwrap();
        assert_eq!(attenuation, albedo);
    }
}

#[test]
fn metal_with_zero_fuzz_mirrors_exactly() {
    let albedo = Vec3::new(FX_ONE / 2, FX_ONE / 2, FX_ONE / 2);
    let mat = Material::Metal(MetalMaterial::new(albedo, 0));
    let (r, rec) = front_hit_record(mat);
    let mut rng = Rng::new(5);
    let (attenuation, scattered) = mat.scatter(&r.direction, &rec, &mut rng).unwrap();
    assert_eq!(attenuation, albedo);
    // straight-on incidence reflects straight back
    assert_eq!(scattered.direction, Vec3::new(0, 0, FX_ONE));
    assert_eq!(scattered.origin, rec.p);
}

#[test]
fn metal_fuzz_is_clamped_into_unit_range() {
    let m = MetalMaterial::new(Vec3::new(FX_ONE, FX_ONE, FX_ONE), 5 * FX_ONE);
    assert_eq!(m.fuzz, FX_ONE);
    let kept = MetalMaterial::new(Vec3::new(FX_ONE, FX_ONE, FX_ONE), FX_ONE / 4);
    assert_eq!(kept.fuzz, FX_ONE / 4);
    let negative = MetalMaterial::new(Vec3::new(FX_ONE, FX_ONE, FX_ONE), -FX_ONE);
    assert_eq!(negative.fuzz, 0);
}

#[test]
fn dielectric_unit_index_passes_straight_through() {
    let mat = Material::Dielectric(DielectricMaterial::new(FX_ONE));
    let (r, rec) = front_hit_record(mat);
    let mut rng = Rng::new(3);
    let (attenuation, scattered) = mat.scatter(&r.direction, &rec, &mut rng).unwrap();
    assert_eq!(attenuation, Vec3::new(FX_ONE, FX_ONE, FX_ONE));
    // normal incidence at index one: no deviation at all
    assert_eq!(scattered.direction, r.direction);
}

#[test]
fn dielectric_unit_index_angled_deviation_is_tiny() {
    let mat = Material::Dielectric(DielectricMaterial::new(FX_ONE));
    let r = Ray::new(Vec3::new(0, 0, FX_ONE), Vec3::new(FX_ONE, 0, -FX_ONE)).unwrap();
    let rec = HitRecord::new(
        Vec3::new(0, 0, 0),
        Vec3::new(0, 0, FX_ONE),
        FX_ONE,
        &r,
        mat,
    );
    let mut rng = Rng::new(11);
    for _ in 0..20 {
        let (_, scattered) = mat.scatter(&r.direction, &rec, &mut rng).unwrap();
        // refraction at index one reproduces the direction up to rounding;
        // a Fresnel draw may still mirror it, flipping the z sign
        assert!((scattered.direction.x - r.direction.x).abs() <= 8);
        assert!((scattered.direction.y - r.direction.y).abs() <= 8);
        assert!((scattered.direction.z.abs() - r.direction.z.abs()).abs() <= 8);
    }
}

#[test]
fn dielectric_always_scatters() {
    let mat = Material::Dielectric(DielectricMaterial::new(3 * FX_ONE / 2));
    let (r, rec) = front_hit_record(mat);
    let mut rng = Rng::new(21);
    for _ in 0..50 {
        assert!(mat.scatter(&r.direction, &rec, &mut rng).is_some());
    }
}

#[test]
fn ray_color_with_zero_budget_is_black() {
    let world = HittableList::hittable_list(Some(unit_sphere_at(-FX_ONE, FX_ONE / 2)));
    let r = Ray::new(Vec3::new(0, 0, 0), Vec3::new(0, 0, -FX_ONE)).unwrap();
    let mut rng = Rng::new(8);
    let c = Camera::ray_color(&r, 0, &world, &mut rng);
    assert_eq!(c, Vec3::new(0, 0, 0));
}

#[test]
fn ray_color_miss_is_background_gradient() {
    let world = HittableList::hittable_list(None);
    // straight up: t = 1, pure sky blue (0.5, 0.7, 1.0)
    let up = Ray::new(Vec3::new(0, 0, 0), Vec3::new(0, FX_ONE, 0)).unwrap();
    let mut rng = Rng::new(8);
    let c = Camera::ray_color(&up, 5, &world, &mut rng);
    assert_eq!(c, Vec3::new(FX_ONE / 2, 45875, FX_ONE));
    // straight down: t = 0, pure white
    let down = Ray::new(Vec3::new(0, 0, 0), Vec3::new(0, -FX_ONE, 0)).unwrap();
    let c2 = Camera::ray_color(&down, 5, &world, &mut rng);
    assert_eq!(c2, Vec3::new(FX_ONE, FX_ONE, FX_ONE));
}

fn test_camera() -> Camera {
    let mut cam = Camera::new();
    cam.aspect_ratio = FX_ONE;
    cam.image_width = 9;
    cam.samples_per_pixel = 1;
    cam.max_child_rays = 5;
    cam.vfov = 90;
    cam.center = Vec3::new(0, 0, 0);
    cam.look_at_point = Vec3::new(0, 0, -FX_ONE);
    cam.vup = Vec3::new(0, FX_ONE, 0);
    cam
}

#[test]
fn camera_rejects_invalid_configuration() {
    let mut cam = test_camera();
    cam.aspect_ratio = 0;
    assert_eq!(cam.init(), Err(CameraError::BadAspectRatio));

    let mut cam = test_camera();
    cam.image_width = 0;
    assert_eq!(cam.init(), Err(CameraError::BadImageSize));

    let mut cam = test_camera();
    cam.samples_per_pixel = 0;
    assert_eq!(cam.init(), Err(CameraError::BadSampleCount));

    let mut cam = test_camera();
    cam.vfov = 0;
    assert_eq!(cam.init(), Err(CameraError::BadFieldOfView));
    cam.vfov = 180;
    assert_eq!(cam.init(), Err(CameraError::BadFieldOfView));

    let mut cam = test_camera();
    cam.look_at_point = cam.center;
    assert_eq!(cam.init(), Err(CameraError::DegenerateView));

    // up hint parallel to the view axis
    let mut cam = test_camera();
    cam.vup = Vec3::new(0, 0, FX_ONE);
    assert_eq!(cam.init(), Err(CameraError::DegenerateView));

    assert_eq!(test_camera().init(), Ok(()));
}

#[test]
fn render_is_reproducible_from_the_seed() {
    let world = HittableList::hittable_list(Some(unit_sphere_at(-FX_ONE, FX_ONE / 2)));
    let img1 = test_camera().render(&world, 2024).unwrap();
    let img2 = test_camera().render(&world, 2024).unwrap();
    assert_eq!(img1.pixels, img2.pixels);
    assert_eq!(img1.width, 9);
    assert_eq!(img1.height, 9);
    assert_eq!(img1.pixels.len(), 81);
}

#[test]
fn single_sphere_render_darkens_center_and_keeps_background_corners() {
    let world = HittableList::hittable_list(Some(unit_sphere_at(-FX_ONE, FX_ONE / 2)));
    let empty = HittableList::hittable_list(None);
    let seed: u64 = 7;
    let img = test_camera().render(&world, seed).unwrap();
    let bg = test_camera().render(&empty, seed).unwrap();
    let w = img.width as usize;
    let center = (img.height as usize / 2) * w + w / 2;
    // the center pixel's ray hits the sphere: its color is not the gradient
    assert_ne!(img.pixels[center], bg.pixels[center]);
    // corner rays pass the sphere: exactly the analytic gradient value,
    // which the background-only render computes
    assert_eq!(img.pixels[0], bg.pixels[0]);
    assert_eq!(img.pixels[w - 1], bg.pixels[w - 1]);
    assert_eq!(img.pixels[w * w - 1], bg.pixels[w * w - 1]);
}

#[test]
fn render_row_matches_full_render() {
    let world = HittableList::hittable_list(Some(unit_sphere_at(-FX_ONE, FX_ONE / 2)));
    let seed: u64 = 31;
    let mut cam = test_camera();
    let img = cam.render(&world, seed).unwrap();
    // after render the camera is initialized; rows must agree with it
    let row0 = cam.render_row(&world, seed, 0);
    assert_eq!(&img.pixels[0..row0.len()], &row0[..]);
}
