use image::{DynamicImage, GenericImage, Rgba};
use raytracer::point::Point;
use raytracer::scalar::Real;
use raytracer::scene::{wrap, Color, Coloration, Element, Material, Sample, Sphere, SurfaceType};

fn num(value: f64) -> Real {
    Real::from_bits(value.to_bits())
}

/// A bitmap of the given size whose pixel at `(x, y)` is
/// `(10 * x + y, 100 + x, 200 + y)`.
fn gradient(width: u32, height: u32) -> DynamicImage {
    let mut img = DynamicImage::new_rgba8(width, height);
    for x in 0..width {
        for y in 0..height {
            let pixel = Rgba { data: [(10 * x + y) as u8, (100 + x) as u8, (200 + y) as u8, 77] };
            img.put_pixel(x, y, pixel);
        }
    }
    img
}

#[test]
fn wrap_keeps_a_coordinate_inside_the_texture() {
    assert_eq!(wrap(0, 4), 0);
    assert_eq!(wrap(3, 4), 3);
    assert_eq!(wrap(4, 4), 0);
    assert_eq!(wrap(9, 4), 1);
}

#[test]
fn wrap_counts_negative_coordinates_from_the_far_side() {
    assert_eq!(wrap(-1, 4), 3);
    assert_eq!(wrap(-4, 4), 0);
    assert_eq!(wrap(-5, 4), 3);
    assert_eq!(wrap(-9, 4), 3);
    assert_eq!(wrap(-1, 1), 0);
}

#[test]
fn wrap_is_the_floored_remainder_at_the_limits() {
    assert_eq!(wrap(i32::MAX, i32::MAX as u32), 0);
    assert_eq!(wrap(i32::MIN, i32::MAX as u32), (i32::MAX - 1) as u32);
    assert_eq!(wrap(i32::MIN, 1), 0);
    assert_eq!(wrap(i32::MIN, 10), (i32::MIN as i64).rem_euclid(10) as u32);
    for coord in -50..50 {
        for bound in 1..9u32 {
            assert_eq!(wrap(coord, bound), (coord as i64).rem_euclid(bound as i64) as u32);
        }
    }
}

#[test]
fn a_flat_colour_is_the_same_everywhere() {
    let c = Color { red: num(0.25), green: num(0.5), blue: num(0.75) };
    let coloration = Coloration::Color(c);
    assert_eq!(coloration.color(0, 0), Sample::Linear(c));
    assert_eq!(coloration.color(-7, 123456), Sample::Linear(c));
    assert_eq!(coloration.sample(i32::MIN, i32::MAX), Some(Sample::Linear(c)));
    assert_eq!(coloration.extent(), None);
}

#[test]
fn extent_is_the_size_of_the_texture() {
    assert_eq!(Coloration::Texture(gradient(5, 3)).extent(), Some((5, 3)));
    assert_eq!(Coloration::Texture(gradient(1, 7)).extent(), Some((1, 7)));
    assert_eq!(Coloration::Texture(DynamicImage::new_rgb8(0, 0)).extent(), Some((0, 0)));
}

#[test]
fn a_texture_gives_the_texel_at_the_coordinates() {
    let coloration = Coloration::Texture(gradient(5, 3));
    assert_eq!(coloration.color(0, 0), Sample::Encoded(0, 100, 200));
    assert_eq!(coloration.color(4, 2), Sample::Encoded(42, 104, 202));
    assert_eq!(coloration.color(2, 1), Sample::Encoded(21, 102, 201));
}

#[test]
fn a_texture_repeats_in_both_directions() {
    let coloration = Coloration::Texture(gradient(5, 3));
    assert_eq!(coloration.color(5, 3), Sample::Encoded(0, 100, 200));
    assert_eq!(coloration.color(7, 4), Sample::Encoded(21, 102, 201));
    assert_eq!(coloration.color(-1, -1), Sample::Encoded(42, 104, 202));
    assert_eq!(coloration.color(-5, -3), Sample::Encoded(0, 100, 200));
    assert_eq!(coloration.color(-3, -2), Sample::Encoded(21, 102, 201));
}

#[test]
fn a_texture_without_alpha_reads_the_same() {
    let mut img = DynamicImage::new_rgb8(2, 2);
    img.put_pixel(1, 0, Rgba { data: [9, 8, 7, 255] });
    let coloration = Coloration::Texture(img);
    assert_eq!(coloration.color(1, 0), Sample::Encoded(9, 8, 7));
    assert_eq!(coloration.color(0, 1), Sample::Encoded(0, 0, 0));
    assert_eq!(coloration.color(3, 2), Sample::Encoded(9, 8, 7));
}

#[test]
fn sample_gives_what_color_gives_where_a_texel_can_be_read() {
    let coloration = Coloration::Texture(gradient(5, 3));
    assert_eq!(coloration.sample(4, 2), Some(Sample::Encoded(42, 104, 202)));
    assert_eq!(coloration.sample(-1, -1), Some(Sample::Encoded(42, 104, 202)));
}

#[test]
fn sample_gives_nothing_for_a_texture_without_texels() {
    assert_eq!(Coloration::Texture(DynamicImage::new_rgb8(0, 0)).sample(0, 0), None);
    assert_eq!(Coloration::Texture(DynamicImage::new_rgb8(0, 4)).sample(1, 1), None);
    assert_eq!(Coloration::Texture(DynamicImage::new_rgb8(4, 0)).sample(1, 1), None);
}

#[test]
fn the_colour_of_a_shape_is_that_of_its_coloration() {
    let ball = |coloration: Coloration| {
        Element::Sphere(Sphere {
            centre: Point::zero(),
            radius: num(1.0),
            material: Material { coloration, albedo: num(0.18), surface: SurfaceType::Diffuse },
        })
    };
    let c = Color { red: num(0.25), green: num(0.5), blue: num(0.75) };
    assert_eq!(ball(Coloration::Color(c)).color(3, -4), Sample::Linear(c));
    assert_eq!(ball(Coloration::Texture(gradient(5, 3))).color(4, 2), Sample::Encoded(42, 104, 202));
    assert_eq!(ball(Coloration::Texture(gradient(5, 3))).color(-1, 5), Sample::Encoded(42, 104, 202));
}
