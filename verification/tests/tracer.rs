use raytracer::camera::Camera;
use raytracer::color_util::write_color;
use raytracer::hittable::{HitRecord, Hittable};
use raytracer::hittable_list::HittableList;
use raytracer::material::{Lambertian, Material, MaterialKind, Metal, NullMaterial};
use raytracer::math::{clamp, random_double, random_double_between, RandomSource};
use raytracer::ray::Ray;
use raytracer::renderer::{ray_color, render};
use raytracer::sphere::{Sphere, SphereBuilder};
use raytracer::vec::{Color3, Point3, Vec3};
use raytracer::vec_util::{cross, dot, reflect, unit_vector};

const S: i64 = 1_000_000_000;

fn lambert_gray() -> MaterialKind {
    MaterialKind::Lambert(Lambertian {
        albedo: Color3::from(S / 2, S / 2, S / 2),
    })
}

#[test]
fn vector_accessors_and_ops() {
    let v = Vec3::from(1, 2, 3);
    assert_eq!(v.x(), 1);
    assert_eq!(v.y(), 2);
    assert_eq!(v.z(), 3);
    let c = Color3::from(4, 5, 6);
    assert_eq!(c.r(), 4);
    assert_eq!(c.g(), 5);
    assert_eq!(c.b(), 6);
    let a = Vec3::from(S, 2 * S, -S);
    let b = Vec3::from(S, S, S);
    let sum = a.add(&b);
    assert_eq!((sum.x(), sum.y(), sum.z()), (2 * S, 3 * S, 0));
    let dif = a.sub(&b);
    assert_eq!((dif.x(), dif.y(), dif.z()), (0, S, -2 * S));
    let neg = a.neg();
    assert_eq!((neg.x(), neg.y(), neg.z()), (-S, -2 * S, S));
    let prod = a.mul(&b);
    assert_eq!((prod.x(), prod.y(), prod.z()), (S, 2 * S, -S));
    let sc = a.scale(S / 2);
    assert_eq!((sc.x(), sc.y(), sc.z()), (S / 2, S, -S / 2));
    let dv = a.div(2 * S);
    assert_eq!((dv.x(), dv.y(), dv.z()), (S / 2, S, -S / 2));
    let mut m = Vec3::from(1, 1, 1);
    m.add_assign(&Vec3::from(1, 2, 3));
    assert_eq!((m.x, m.y, m.z), (2, 3, 4));
    let mut w = Vec3::from(S, S, S);
    w.mul_assign(&Vec3::from(2 * S, 3 * S, 4 * S));
    assert_eq!((w.x, w.y, w.z), (2 * S, 3 * S, 4 * S));
    let mut q = Vec3::from(4 * S, 2 * S, 0);
    q.div_assign(2 * S);
    assert_eq!((q.x, q.y, q.z), (2 * S, S, 0));
}

#[test]
fn vector_length_and_near_zero() {
    let v = Vec3::from(3 * S, 4 * S, 0);
    assert_eq!(v.length(), 5 * S);
    assert_eq!(v.length_squared(), 25 * S);
    assert!(Vec3::from(9, -9, 0).near_zero());
    assert!(!Vec3::from(10, 0, 0).near_zero());
}

#[test]
fn unit_vector_has_unit_length() {
    // |length(unit_vector(v)) - 1| stays within a few billionths
    let cases = [
        Vec3::from(3 * S, 4 * S, 12 * S),
        Vec3::from(-7 * S, 2 * S, 5 * S),
        Vec3::from(S, S, S),
        Vec3::from(1_234_567_891, -987_654_321, 5_000_000_000),
    ];
    for v in cases.iter() {
        let u = unit_vector(v);
        let len = u.length();
        assert!((len - S).abs() <= 10, "length {} for {:?}", len, v);
    }
}

#[test]
fn cross_is_orthogonal() {
    let v = Vec3::from(3 * S, -2 * S, 5 * S);
    let w = Vec3::from(-S, 4 * S, 2 * S);
    let c = cross(&v, &w);
    // truncation leaves at most a few billionths of misalignment
    assert!(dot(&v, &c).abs() <= 100);
    assert!(dot(&w, &c).abs() <= 100);
}

#[test]
fn reflect_preserves_length_and_negates_normal_component() {
    let v = Vec3::from(S, -S, 0);
    let n = Vec3::from(0, S, 0);
    let r = reflect(&v, &n);
    assert_eq!((r.x, r.y, r.z), (S, S, 0));
    assert!((r.length() - v.length()).abs() <= 10);
    assert_eq!(dot(&r, &n), -dot(&v, &n));
}

#[test]
fn random_doubles_stay_in_range() {
    let mut rng = RandomSource::from_seed(7);
    for _ in 0..1000 {
        let x = random_double(&mut rng);
        assert!((0..S).contains(&x));
        let y = random_double_between(-S, S, &mut rng);
        assert!((-S..S).contains(&y));
    }
}

#[test]
fn random_in_unit_sphere_is_inside() {
    let mut rng = RandomSource::from_seed(11);
    for _ in 0..1000 {
        let p = Vec3::random_in_unit_sphere(&mut rng);
        assert!(p.length_squared() < S);
        assert!(p.x != 0 || p.y != 0 || p.z != 0);
    }
}

#[test]
fn random_in_unit_sphere_mean_is_small() {
    let mut rng = RandomSource::from_seed(13);
    let n: i64 = 100_000;
    let (mut sx, mut sy, mut sz) = (0i64, 0i64, 0i64);
    for _ in 0..n {
        let p = Vec3::random_in_unit_sphere(&mut rng);
        sx += p.x;
        sy += p.y;
        sz += p.z;
    }
    // each empirical mean component stays below 0.02
    let bound = S / 50;
    assert!((sx / n).abs() < bound);
    assert!((sy / n).abs() < bound);
    assert!((sz / n).abs() < bound);
}

#[test]
fn random_unit_vector_is_unit() {
    let mut rng = RandomSource::from_seed(17);
    for _ in 0..200 {
        let u = Vec3::random_unit_vector(&mut rng);
        assert!((u.length() - S).abs() <= 10);
    }
}

#[test]
fn ray_at_zero_and_one() {
    let r = Ray::from(Point3::from(S, 2 * S, 3 * S), Vec3::from(4 * S, 5 * S, 6 * S));
    let p0 = r.at(0);
    assert_eq!((p0.x, p0.y, p0.z), (S, 2 * S, 3 * S));
    let p1 = r.at(S);
    assert_eq!((p1.x, p1.y, p1.z), (5 * S, 7 * S, 9 * S));
    assert_eq!(r.get_origin().x(), S);
    assert_eq!(r.get_direction().z(), 6 * S);
    let z = Ray::new();
    assert_eq!((z.origin.x, z.direction.x), (0, 0));
}

#[test]
fn sphere_hit_from_outside() {
    // unit sphere at the origin, ray from (0,0,-5) along +z
    let sphere = Sphere::from(Point3::from(0, 0, 0), S, lambert_gray());
    let ray = Ray::from(Point3::from(0, 0, -5 * S), Vec3::from(0, 0, S));
    let rec = sphere.hit(&ray, 0, i64::MAX).expect("must hit");
    assert_eq!(rec.t, 4 * S);
    assert_eq!((rec.p.x, rec.p.y, rec.p.z), (0, 0, -S));
    assert_eq!((rec.normal.x, rec.normal.y, rec.normal.z), (0, 0, -S));
    assert!(rec.front_face);
    // face orientation: the normal opposes the ray
    assert!(dot(&ray.direction, &rec.normal) < 0);
}

#[test]
fn sphere_hit_from_inside_flips_normal() {
    let sphere = Sphere::from(Point3::from(0, 0, 0), S, lambert_gray());
    let ray = Ray::from(Point3::from(0, 0, 0), Vec3::from(0, 0, S));
    let rec = sphere.hit(&ray, 0, i64::MAX).expect("must hit");
    assert_eq!(rec.t, S);
    assert!(!rec.front_face);
    // the geometric outward normal is +z; stored flipped to oppose the ray
    assert_eq!((rec.normal.x, rec.normal.y, rec.normal.z), (0, 0, -S));
    assert!(dot(&ray.direction, &rec.normal) < 0);
}

#[test]
fn sphere_miss_returns_none() {
    let sphere = Sphere::from(Point3::from(0, 0, -3 * S), S, lambert_gray());
    let ray = Ray::from(Point3::from(0, 0, 0), Vec3::from(0, S, 0));
    assert!(sphere.hit(&ray, 0, i64::MAX).is_none());
}

#[test]
fn interval_excludes_near_root() {
    // roots at t = 0.0005 and t = 10; a query from t_min = 0.001 takes 10
    let sphere = Sphere::from(
        Point3::from(0, 0, 5_000_250_000),
        4_999_750_000,
        lambert_gray(),
    );
    let ray = Ray::from(Point3::from(0, 0, 0), Vec3::from(0, 0, S));
    let near = sphere.hit(&ray, 0, i64::MAX).expect("near root");
    assert_eq!(near.t, 500_000);
    let rec = sphere.hit(&ray, 1_000_000, i64::MAX).expect("far root");
    assert_eq!(rec.t, 10_000_000_000);
}

#[test]
fn collection_returns_nearest_hit() {
    // nested spheres hit at t = 1 and t = 2 over the same ray
    let a = Sphere::rc_from(Point3::from(0, 0, 3 * S), 2 * S, lambert_gray());
    let b = Sphere::rc_from(Point3::from(0, 0, 4 * S), 2 * S, lambert_gray());
    let ray = Ray::from(Point3::from(0, 0, 0), Vec3::from(0, 0, S));
    let mut world = HittableList::new();
    world.add(b.clone());
    world.add(a.clone());
    let rec = world.hit(&ray, 0, i64::MAX).expect("must hit");
    assert_eq!(rec.t, S);
    let mut world2 = HittableList::new();
    world2.add(a);
    world2.add(b);
    let rec2 = world2.hit(&ray, 0, i64::MAX).expect("must hit");
    assert_eq!(rec2.t, S);
    assert_eq!(world2.len(), 2);
}

fn front_hit_record(material: MaterialKind) -> (Ray, HitRecord) {
    let sphere = Sphere::from(Point3::from(0, 0, 0), S, material);
    let ray = Ray::from(Point3::from(0, 0, -5 * S), Vec3::from(0, 0, S));
    let rec = sphere.hit(&ray, 0, i64::MAX).expect("must hit");
    (ray, rec)
}

#[test]
fn lambertian_scatter_attenuates_by_albedo() {
    let albedo = Color3::from(700_000_000, 300_000_000, 300_000_000);
    let (ray, rec) = front_hit_record(MaterialKind::Lambert(Lambertian { albedo }));
    let mut rng = RandomSource::from_seed(23);
    let mat = Lambertian { albedo };
    for _ in 0..100 {
        let (att, sc) = mat.scatter(&ray, &rec, &mut rng).expect("always scatters");
        assert_eq!((att.x, att.y, att.z), (albedo.x, albedo.y, albedo.z));
        assert_eq!((sc.origin.x, sc.origin.y, sc.origin.z), (0, 0, -S));
        // direction is the normal plus a unit sample (or the bare normal)
        let off = sc.direction.sub(&rec.normal);
        assert!(off.x.abs() <= S && off.y.abs() <= S && off.z.abs() <= S);
        assert!(sc.direction.x != 0 || sc.direction.y != 0 || sc.direction.z != 0);
    }
}

#[test]
fn metal_scatter_reflects_into_the_open() {
    let albedo = Color3::from(800_000_000, 800_000_000, 800_000_000);
    let (ray, rec) = front_hit_record(MaterialKind::Metallic(Metal { albedo }));
    let mut rng = RandomSource::from_seed(29);
    let mat = Metal { albedo };
    let (att, sc) = mat.scatter(&ray, &rec, &mut rng).expect("head-on reflection");
    assert_eq!((att.x, att.y, att.z), (albedo.x, albedo.y, albedo.z));
    assert_eq!((sc.direction.x, sc.direction.y, sc.direction.z), (0, 0, -S));
    assert!(dot(&sc.direction, &rec.normal) > 0);
}

#[test]
fn metal_scatter_absorbs_grazing_rays() {
    let albedo = Color3::from(800_000_000, 800_000_000, 800_000_000);
    let (_, rec) = front_hit_record(MaterialKind::Metallic(Metal { albedo }));
    let mat = Metal { albedo };
    let mut rng = RandomSource::from_seed(31);
    // a ray sliding along the surface reflects to a zero dot and is absorbed
    let grazing = Ray::from(Point3::from(0, 0, -S), Vec3::from(S, 0, 0));
    assert!(mat.scatter(&grazing, &rec, &mut rng).is_none());
}

#[test]
fn null_material_never_scatters() {
    let (ray, rec) = front_hit_record(MaterialKind::Null);
    let mut rng = RandomSource::from_seed(37);
    assert!(NullMaterial {}.scatter(&ray, &rec, &mut rng).is_none());
    assert!(MaterialKind::Null.scatter(&ray, &rec, &mut rng).is_none());
}

#[test]
fn integrator_depth_cap_is_black() {
    let mut world = HittableList::new();
    world.add(Sphere::rc_from(Point3::from(0, 0, -S), S / 2, lambert_gray()));
    let ray = Ray::from(Point3::from(0, 0, 0), Vec3::from(0, 0, -S));
    let mut rng = RandomSource::from_seed(41);
    let c = ray_color(&ray, &world, 0, &mut rng);
    assert_eq!((c.x, c.y, c.z), (0, 0, 0));
}

#[test]
fn background_gradient_endpoints() {
    let world = HittableList::new();
    let mut rng = RandomSource::from_seed(43);
    let up = ray_color(
        &Ray::from(Point3::from(0, 0, 0), Vec3::from(0, S, 0)),
        &world,
        8,
        &mut rng,
    );
    assert_eq!((up.x, up.y, up.z), (S / 2, 700_000_000, S));
    let down = ray_color(
        &Ray::from(Point3::from(0, 0, 0), Vec3::from(0, -S, 0)),
        &world,
        8,
        &mut rng,
    );
    assert_eq!((down.x, down.y, down.z), (S, S, S));
}

#[test]
fn absorbed_ray_is_black() {
    let mut world = HittableList::new();
    world.add(Sphere::rc_from(Point3::from(0, 0, -2 * S), S, MaterialKind::Null));
    let ray = Ray::from(Point3::from(0, 0, 0), Vec3::from(0, 0, -S));
    let mut rng = RandomSource::from_seed(47);
    let c = ray_color(&ray, &world, 8, &mut rng);
    assert_eq!((c.x, c.y, c.z), (0, 0, 0));
}

#[test]
fn gamma_and_quantization() {
    let mut out: Vec<u8> = Vec::new();
    // linear 0.25 averages to square root 0.5 and quantizes to 128
    write_color(&mut out, &Color3::from(S, S, S), 4);
    assert_eq!(out, vec![128, 128, 128]);
    // linear 1.0 clamps to 0.999 and quantizes to 255; linear 0 stays 0
    let mut out2: Vec<u8> = Vec::new();
    write_color(&mut out2, &Color3::from(4 * S, 0, 2 * S), 4);
    assert_eq!(out2[0], 255);
    assert_eq!(out2[1], 0);
    // linear 0.5 -> sqrt ~ 0.7071 -> byte 181
    assert_eq!(out2[2], 181);
}

#[test]
fn clamp_matches_bounds() {
    assert_eq!(clamp(5, 0, 10), 5);
    assert_eq!(clamp(-5, 0, 10), 0);
    assert_eq!(clamp(15, 0, 10), 10);
}

#[test]
fn camera_geometry_and_rays() {
    // aspect ratio 16/9 in fixed point
    let aspect = 1_777_777_777;
    let cam = Camera::new(aspect);
    assert_eq!(cam.horizontal.x, 3_555_555_554);
    assert_eq!((cam.vertical.x, cam.vertical.y, cam.vertical.z), (0, 2 * S, 0));
    assert_eq!(cam.lower_left_corner.x, -1_777_777_777);
    assert_eq!(cam.lower_left_corner.y, -S);
    assert_eq!(cam.lower_left_corner.z, -S);
    let r = cam.get_ray(0, 0);
    assert_eq!((r.origin.x, r.origin.y, r.origin.z), (0, 0, 0));
    assert_eq!(r.direction.x, cam.lower_left_corner.x);
    assert_eq!(r.direction.y, -S);
    assert_eq!(r.direction.z, -S);
    // the center of the screen looks straight down the axis
    let c = cam.get_ray(S / 2, S / 2);
    assert_eq!(c.direction.y, 0);
    assert_eq!(c.direction.z, -S);
}

#[test]
fn sphere_builder_chains() {
    let m = lambert_gray();
    let s = SphereBuilder::new()
        .set_position(Point3::from(S, 2 * S, 3 * S))
        .set_radius(S / 2)
        .set_material(m)
        .to_rc();
    assert_eq!((s.center.x, s.center.y, s.center.z), (S, 2 * S, 3 * S));
    assert_eq!(s.radius, S / 2);
    let d = Sphere::new();
    assert_eq!(d.radius, 0);
}

fn demo_world() -> HittableList {
    let mut world = HittableList::new();
    world.add(Sphere::rc_from(
        Point3::from(0, 0, -S),
        S / 2,
        MaterialKind::Lambert(Lambertian {
            albedo: Color3::from(700_000_000, 300_000_000, 300_000_000),
        }),
    ));
    world.add(Sphere::rc_from(
        Point3::from(0, -100_500_000_000, -S),
        100 * S,
        MaterialKind::Lambert(Lambertian {
            albedo: Color3::from(800_000_000, 800_000_000, 0),
        }),
    ));
    world
}

#[test]
fn render_emits_one_triple_per_pixel() {
    let cam = Camera::new(1_777_777_777);
    let world = demo_world();
    let mut rng = RandomSource::from_seed(53);
    let out = render(&cam, &world, 16, 9, 1, 4, &mut rng);
    assert_eq!(out.len(), 16 * 9 * 3);
}

#[test]
fn render_is_deterministic_under_a_seed() {
    let cam = Camera::new(2 * S);
    let world = demo_world();
    let mut rng1 = RandomSource::from_seed(12345);
    let first = render(&cam, &world, 20, 10, 2, 8, &mut rng1);
    let mut rng2 = RandomSource::from_seed(12345);
    let second = render(&cam, &world, 20, 10, 2, 8, &mut rng2);
    assert_eq!(first, second);
    assert_eq!(first.len(), 20 * 10 * 3);
}
