use raytracer::point::Point;
use raytracer::rendering::{texture_axis, GRAZING};
use raytracer::scalar::Real;
use raytracer::scene::{Color, Coloration, Disk, Material, Plane, Sphere, SurfaceType};
use raytracer::vector::Vector3;

fn num(value: f64) -> Real {
    Real::from_bits(value.to_bits())
}

fn distance(hit: Option<Real>) -> Option<f64> {
    hit.map(|d| f64::from_bits(d.bits))
}

fn dot(a: [f64; 3], b: [f64; 3]) -> f64 {
    a[0] * b[0] + a[1] * b[1] + a[2] * b[2]
}

/// The quantities of a ray and a sphere, worked out as a caller does, and
/// handed to the rule.
fn sphere(centre: [f64; 3], radius: f64, origin: [f64; 3], direction: [f64; 3]) -> Option<f64> {
    let line = [centre[0] - origin[0], centre[1] - origin[1], centre[2] - origin[2]];
    let adj = dot(line, direction);
    let d2 = dot(line, line) - adj * adj;
    let radius2 = radius * radius;
    let thc = (radius2 - d2).sqrt();
    distance(Sphere::intersect(num(d2), num(radius2), num(adj - thc), num(adj + thc)))
}

fn plane(origin: [f64; 3], normal: [f64; 3], from: [f64; 3], direction: [f64; 3]) -> Option<f64> {
    let denom = dot(normal, direction);
    let v = [origin[0] - from[0], origin[1] - from[1], origin[2] - from[2]];
    distance(Plane::intersect(num(denom), num(dot(v, normal) / denom)))
}

fn disk(origin: [f64; 3], normal: [f64; 3], radius: f64, from: [f64; 3], direction: [f64; 3]) -> Option<f64> {
    let denom = dot(normal, direction);
    let v = [origin[0] - from[0], origin[1] - from[1], origin[2] - from[2]];
    let t = dot(v, normal) / denom;
    let hit = [from[0] + direction[0] * t, from[1] + direction[1] * t, from[2] + direction[2] * t];
    let off = [hit[0] - origin[0], hit[1] - origin[1], hit[2] - origin[2]];
    distance(Disk::intersect(num(denom), num(t), num(dot(off, off)), num(radius * radius)))
}

fn grey() -> Material {
    Material {
        coloration: Coloration::Color(Color { red: num(0.5), green: num(0.5), blue: num(0.5) }),
        albedo: num(0.18),
        surface: SurfaceType::Diffuse,
    }
}

#[test]
fn grazing_is_a_millionth() {
    assert_eq!(GRAZING, 1e-6f64.to_bits());
}

#[test]
fn a_ray_meets_a_sphere_ahead_on_its_near_side() {
    assert_eq!(sphere([0.0, 0.0, -5.0], 1.0, [0.0, 0.0, 0.0], [0.0, 0.0, -1.0]), Some(4.0));
    assert_eq!(sphere([0.0, 0.0, -10.0], 2.0, [0.0, 0.0, 0.0], [0.0, 0.0, -1.0]), Some(8.0));
}

#[test]
fn a_ray_from_inside_a_sphere_meets_its_far_side() {
    assert_eq!(sphere([0.0, 0.0, 0.0], 2.0, [0.0, 0.0, 0.0], [0.0, 0.0, -1.0]), Some(2.0));
    assert_eq!(sphere([0.0, 0.0, -1.0], 3.0, [0.0, 0.0, 0.0], [0.0, 0.0, -1.0]), Some(4.0));
}

#[test]
fn a_ray_does_not_meet_a_sphere_behind_it() {
    assert_eq!(sphere([0.0, 0.0, 5.0], 1.0, [0.0, 0.0, 0.0], [0.0, 0.0, -1.0]), None);
}

#[test]
fn a_ray_does_not_meet_a_sphere_that_its_line_misses() {
    assert_eq!(sphere([0.0, 3.0, -5.0], 1.0, [0.0, 0.0, 0.0], [0.0, 0.0, -1.0]), None);
}

#[test]
fn a_ray_that_touches_a_sphere_meets_it_once() {
    assert_eq!(sphere([0.0, 1.0, -5.0], 1.0, [0.0, 0.0, 0.0], [0.0, 0.0, -1.0]), Some(5.0));
}

#[test]
fn the_sphere_rule_picks_among_the_two_places() {
    let hit = |d2: f64, r2: f64, t0: f64, t1: f64| {
        distance(Sphere::intersect(num(d2), num(r2), num(t0), num(t1)))
    };
    assert_eq!(hit(0.0, 1.0, 4.0, 6.0), Some(4.0));
    assert_eq!(hit(0.0, 1.0, 6.0, 4.0), Some(4.0));
    assert_eq!(hit(0.0, 1.0, -1.0, 1.0), Some(1.0));
    assert_eq!(hit(0.0, 1.0, 1.0, -1.0), Some(1.0));
    assert_eq!(hit(0.0, 1.0, -6.0, -4.0), None);
    assert_eq!(hit(1.0, 1.0, 5.0, 5.0), Some(5.0));
    assert_eq!(hit(1.0000001, 1.0, 4.0, 6.0), None);
    assert_eq!(hit(0.0, 1.0, 0.0, 2.0), Some(0.0));
    assert_eq!(hit(0.0, 1.0, -0.0, 2.0).map(f64::to_bits), Some((-0.0f64).to_bits()));
}

#[test]
fn a_ray_meets_a_plane_that_it_runs_towards() {
    assert_eq!(plane([0.0, -2.0, 0.0], [0.0, -1.0, 0.0], [0.0, 0.0, 0.0], [0.0, -1.0, 0.0]), Some(2.0));
    assert_eq!(plane([0.0, 0.0, -20.0], [0.0, 0.0, -1.0], [0.0, 0.0, 0.0], [0.0, 0.0, -1.0]), Some(20.0));
    assert_eq!(plane([0.0, -2.0, 0.0], [0.0, -1.0, 0.0], [0.0, 0.0, 0.0], [0.6, -0.8, 0.0]), Some(2.5));
}

#[test]
fn a_ray_does_not_meet_a_plane_that_it_runs_away_from_or_along() {
    assert_eq!(plane([0.0, -2.0, 0.0], [0.0, -1.0, 0.0], [0.0, 0.0, 0.0], [0.0, 1.0, 0.0]), None);
    assert_eq!(plane([0.0, -2.0, 0.0], [0.0, -1.0, 0.0], [0.0, 0.0, 0.0], [1.0, 0.0, 0.0]), None);
}

#[test]
fn a_ray_does_not_meet_a_plane_behind_its_origin() {
    assert_eq!(plane([0.0, 2.0, 0.0], [0.0, -1.0, 0.0], [0.0, 0.0, 0.0], [0.0, -1.0, 0.0]), None);
}

#[test]
fn the_plane_rule_asks_for_more_than_a_millionth() {
    let hit = |denom: f64, t: f64| distance(Plane::intersect(num(denom), num(t)));
    assert_eq!(hit(1e-6, 3.0), None);
    assert_eq!(hit(1.0000000000000002e-6, 3.0), Some(3.0));
    assert_eq!(hit(0.5, 0.0), Some(0.0));
    assert_eq!(hit(0.5, -1e-300), None);
    assert_eq!(hit(-0.5, 3.0), None);
    assert_eq!(hit(0.5, f64::NAN), None);
    assert_eq!(hit(f64::NAN, 3.0), None);
}

#[test]
fn a_ray_meets_a_disk_within_its_radius() {
    let n = [0.0, 0.0, -1.0];
    assert_eq!(disk([0.0, 0.0, -4.0], n, 1.0, [0.0, 0.0, 0.0], [0.0, 0.0, -1.0]), Some(4.0));
    assert_eq!(disk([0.5, 0.0, -4.0], n, 1.0, [0.0, 0.0, 0.0], [0.0, 0.0, -1.0]), Some(4.0));
}

#[test]
fn a_ray_does_not_meet_a_disk_outside_its_radius() {
    let n = [0.0, 0.0, -1.0];
    assert_eq!(disk([2.0, 0.0, -4.0], n, 1.0, [0.0, 0.0, 0.0], [0.0, 0.0, -1.0]), None);
    assert_eq!(disk([0.0, 0.0, 4.0], n, 1.0, [0.0, 0.0, 0.0], [0.0, 0.0, -1.0]), None);
    assert_eq!(disk([0.0, 0.0, -4.0], n, 1.0, [0.0, 0.0, 0.0], [0.0, 0.0, 1.0]), None);
}

#[test]
fn the_rim_of_a_disk_belongs_to_it() {
    let hit = |denom: f64, t: f64, off2: f64, r2: f64| {
        distance(Disk::intersect(num(denom), num(t), num(off2), num(r2)))
    };
    assert_eq!(hit(1.0, 4.0, 1.0, 1.0), Some(4.0));
    assert_eq!(hit(1.0, 4.0, 0.99, 1.0), Some(4.0));
    assert_eq!(hit(1.0, 4.0, 1.0000000000000002, 1.0), None);
    assert_eq!(hit(1.0, 4.0, f64::NAN, 1.0), None);
    assert_eq!(hit(1e-7, 4.0, 0.0, 1.0), None);
    assert_eq!(hit(1.0, -4.0, 0.0, 1.0), None);
}

#[test]
fn the_normal_of_a_plane_is_the_stored_one_turned_round() {
    let p = Plane {
        origin: Point::zero(),
        normal: Vector3 { x: num(0.0), y: num(-1.0), z: num(0.0) },
        material: grey(),
    };
    let anywhere = Point::from_one(num(17.0));
    assert_eq!(p.surface_normal(&anywhere), Vector3 { x: num(-0.0), y: num(1.0), z: num(-0.0) });
    assert_eq!(p.surface_normal(&Point::zero()), p.surface_normal(&anywhere));
}

#[test]
fn the_normal_of_a_disk_is_the_stored_one_turned_round() {
    let d = Disk {
        origin: Point::zero(),
        normal: Vector3 { x: num(0.6), y: num(0.0), z: num(-0.8) },
        radius: num(2.0),
        material: grey(),
    };
    assert_eq!(d.surface_normal(&Point::zero()), Vector3 { x: num(-0.6), y: num(-0.0), z: num(0.8) });
}

#[test]
fn the_texture_axis_falls_back_where_the_normal_runs_along_z() {
    let across_z = Vector3 { x: num(1.0), y: num(2.0), z: num(3.0) };
    let across_y = Vector3 { x: num(4.0), y: num(5.0), z: num(6.0) };
    assert_eq!(texture_axis(across_z, num(1.0), across_y), across_z);
    assert_eq!(texture_axis(across_z, num(1e-300), across_y), across_z);
    assert_eq!(texture_axis(across_z, num(0.0), across_y), across_y);
    assert_eq!(texture_axis(across_z, num(-0.0), across_y), across_y);
    assert_eq!(texture_axis(across_z, num(f64::NAN), across_y), across_z);
}
