//! The rules of the tracer: which hit counts, what a surface does with a
//! ray, when a light reaches a point, and how the picture is put together.
//!
//! A caller works out the quantities of the geometry for one ray and hands
//! them in; every decision on them is taken here.

use vstd::prelude::*;
use vstd::arithmetic::power2::{lemma2_to64, lemma_pow2_adds, lemma_pow2_pos, pow2};
use image::DynamicImage;
use crate::bitmap::{image_is_rgb, image_pixels, image_size, new_rgb8, put_pixel};
use crate::point::Point;
use crate::scalar::{Real, ONE};
use crate::scene::{
    nearest, Color, Disk, Intersection, Plane, Scene, Sphere, SurfaceType,
};
use crate::vector::Vector3;

verus! {

/// The encoding of 10^-6, as near as a binary64 comes to it: a ray whose
/// direction has no more than this of a plane's normal in it is taken to run
/// along the plane.
pub const GRAZING: u64 = 0x3EB0_C6F7_A0B5_ED8D;

/// The number that [`GRAZING`] encodes is the binary64 number nearest to a
/// millionth: it is no further from a millionth than half the way to its
/// neighbours. Stated a million times over and in units of two to the power
/// of -1074, in which the neighbours of the number lie two to the power of
/// 1002 away from it.
pub proof fn lemma_grazing_is_a_millionth()
    ensures
        (Real { bits: GRAZING }).finite(),
        2 * ((Real { bits: GRAZING }).scaled() * 1_000_000 - pow2(1074)) <= 1_000_000 * pow2(1002),
        2 * (pow2(1074) - (Real { bits: GRAZING }).scaled() * 1_000_000) <= 1_000_000 * pow2(1002),
{
    let grazing = Real { bits: GRAZING };
    assert(grazing.exponent() == 1003);
    assert(grazing.fraction() == 0x0_C6F7_A0B5_ED8D);
    let step = pow2(1002) as int;
    lemma_pow2_pos(1002);
    lemma2_to64();
    lemma_pow2_adds(64, 8);
    lemma_pow2_adds(72, 1002);
    assert(pow2(72) == 0x1_00_0000_0000_0000_0000);
    let significand: int = 0x10_C6F7_A0B5_ED8D;
    assert(grazing.scaled() == significand * step);
    assert(pow2(1074) == 0x1_00_0000_0000_0000_0000 * step);
    assert(pow2(1074) - significand * step * 1_000_000 == 213_696 * step) by (nonlinear_arith)
        requires
            pow2(1074) == 0x1_00_0000_0000_0000_0000 * step,
            significand == 0x10_C6F7_A0B5_ED8D,
    ;
}

/// A half-line: all points `origin + t * direction` for `t` from 0 on, with
/// `direction` of unit length.
#[derive(Clone, Copy, Debug, PartialEq, Eq, Structural)]
pub struct Ray {
    pub origin: Point,
    pub direction: Vector3,
}

impl Sphere {
    /// Where a ray meets a sphere. `d2` is the square of the distance from
    /// the sphere's centre to the line of the ray, `radius2` the square of
    /// the radius, `t0` and `t1` the places on the line where it enters and
    /// leaves the sphere. The line misses where `d2` is more than `radius2`.
    /// A place behind the origin of the ray is none on the ray; of two places
    /// on it the ray meets the nearer first.
    pub open spec fn hit(d2: Real, radius2: Real, t0: Real, t1: Real) -> Option<Real> {
        let zero = Real { bits: 0 };
        if d2.above(radius2) {
            None
        } else if t0.below(zero) && t1.below(zero) {
            None
        } else if t0.below(zero) {
            Some(t1)
        } else if t1.below(zero) {
            Some(t0)
        } else if t0.below(t1) {
            Some(t0)
        } else {
            Some(t1)
        }
    }

    /// The distance at which a ray meets a sphere, if it does.
    pub fn intersect(d2: Real, radius2: Real, t0: Real, t1: Real) -> (hit: Option<Real>)
        ensures
            hit == Sphere::hit(d2, radius2, t0, t1),
    {
        if d2.gt(radius2) {
            return None;
        }
        let zero: Real = Real::zero();
        if t0.lt(zero) && t1.lt(zero) {
            None
        } else if t0.lt(zero) {
            Some(t1)
        } else if t1.lt(zero) {
            Some(t0)
        } else if t0.lt(t1) {
            Some(t0)
        } else {
            Some(t1)
        }
    }
}

/// Among numbers, the hit of a sphere is the least of the two places that is
/// not behind the origin of the ray, and there is none exactly where the line
/// misses the sphere or both places are behind the origin.
pub proof fn lemma_sphere_hit_is_nearest_root(d2: Real, radius2: Real, t0: Real, t1: Real)
    requires
        !d2.nan() && !radius2.nan() && !t0.nan() && !t1.nan(),
    ensures
        Sphere::hit(d2, radius2, t0, t1) is None <==> d2.rank() > radius2.rank() || (t0.rank() < 0
            && t1.rank() < 0),
        Sphere::hit(d2, radius2, t0, t1) matches Some(t) ==> {
            &&& t == t0 || t == t1
            &&& t.rank() >= 0
            &&& t0.rank() >= 0 ==> t.rank() <= t0.rank()
            &&& t1.rank() >= 0 ==> t.rank() <= t1.rank()
        },
{
}

impl Plane {
    /// Where a ray meets a plane. `denom` is the part of the ray's direction
    /// that runs along the plane's normal, `distance` the place on the line
    /// of the ray where it crosses the plane. The ray meets the plane only
    /// if it runs towards it by more than [`GRAZING`], and only at a place
    /// that is not behind its origin.
    pub open spec fn hit(denom: Real, distance: Real) -> Option<Real> {
        if denom.above(Real { bits: GRAZING }) && distance.at_least(Real { bits: 0 }) {
            Some(distance)
        } else {
            None
        }
    }

    /// The distance at which a ray meets a plane, if it does.
    pub fn intersect(denom: Real, distance: Real) -> (hit: Option<Real>)
        ensures
            hit == Plane::hit(denom, distance),
    {
        if denom.gt(Real::from_bits(GRAZING)) {
            if distance.ge(Real::zero()) {
                return Some(distance);
            }
        }
        None
    }

    /// The unit vector that stands on the plane on the side that rays come
    /// from: the stored normal turned round, wherever the plane is hit.
    pub fn surface_normal(&self, _hit_point: &Point) -> (n: Vector3)
        ensures
            n == self.normal.negated(),
    {
        self.normal.neg()
    }
}

impl Disk {
    /// Where a ray meets a disk: where it meets the plane of the disk, if
    /// that is no further from the disk's origin than its radius. `offset2`
    /// is the square of that distance, `radius2` the square of the radius.
    pub open spec fn hit(denom: Real, distance: Real, offset2: Real, radius2: Real) -> Option<Real> {
        if Plane::hit(denom, distance) is Some && radius2.at_least(offset2) {
            Some(distance)
        } else {
            None
        }
    }

    /// The distance at which a ray meets a disk, if it does.
    pub fn intersect(denom: Real, distance: Real, offset2: Real, radius2: Real) -> (hit: Option<Real>)
        ensures
            hit == Disk::hit(denom, distance, offset2, radius2),
    {
        let plane_intersection: Option<Real> = Plane::intersect(denom, distance);
        if plane_intersection.is_some() {
            if radius2.ge(offset2) {
                plane_intersection
            } else {
                None
            }
        } else {
            None
        }
    }

    /// The unit vector that stands on the disk on the side that rays come
    /// from: the stored normal turned round, wherever the disk is hit.
    pub fn surface_normal(&self, _hit_point: &Point) -> (n: Vector3)
        ensures
            n == self.normal.negated(),
    {
        self.normal.neg()
    }
}

/// The first axis of the texture that is laid over a plane or a disk: the
/// vector `across_z` that is square to both the normal and the z axis or,
/// where the normal runs along the z axis and that vector has `length` zero,
/// the vector `across_y` that is square to both the normal and the y axis.
pub fn texture_axis(across_z: Vector3, length: Real, across_y: Vector3) -> (axis: Vector3)
    ensures
        axis == if length.same(Real { bits: 0 }) {
            across_y
        } else {
            across_z
        },
{
    if length.eq_value(Real::zero()) {
        across_y
    } else {
        across_z
    }
}

/// What becomes of a ray.
#[derive(Clone, Copy, Debug, PartialEq, Eq, Structural)]
pub enum Shade {
    /// Its colour is settled: nothing more is to be worked out.
    Settled(Color),
    /// It ends on a surface that scatters: the colour is the light that
    /// reaches shape `element` at `distance` along the ray.
    Diffuse { element: usize, distance: Real },
    /// It ends on a surface that mirrors a part `reflectivity` of the light:
    /// the colour is `1 - reflectivity` of the light that reaches the surface
    /// and `reflectivity` of the colour of the mirrored ray, which is cast at
    /// `depth`.
    Reflective { element: usize, distance: Real, reflectivity: Real, depth: u32 },
    /// It ends on a surface that lets light through: the colour is blended
    /// from the mirrored ray and the ray that passes through, both cast at
    /// `depth`, dimmed to `transparency` and tinted by the surface.
    Refractive { element: usize, distance: Real, index: Real, transparency: Real, depth: u32 },
}

/// What becomes of a ray that ends, `depth` rays deep, on a surface of the
/// given kind: the rays that it sends on are one deeper.
pub open spec fn surface_shade(surface: SurfaceType, element: usize, distance: Real, depth: u32) -> Shade {
    match surface {
        SurfaceType::Diffuse => Shade::Diffuse { element, distance },
        SurfaceType::Reflective { reflectivity } => Shade::Reflective {
            element,
            distance,
            reflectivity,
            depth: (depth + 1) as u32,
        },
        SurfaceType::Refractive { index, transparency } => Shade::Refractive {
            element,
            distance,
            index,
            transparency,
            depth: (depth + 1) as u32,
        },
    }
}

impl Shade {
    /// The depth at which the rays are cast that this one sends on, if it
    /// sends any.
    pub open spec fn next_depth(self) -> Option<u32> {
        match self {
            Shade::Settled(_) => None,
            Shade::Diffuse { .. } => None,
            Shade::Reflective { depth, .. } => Some(depth),
            Shade::Refractive { depth, .. } => Some(depth),
        }
    }
}

/// What becomes of a ray that is cast `depth` rays deep, where `hits[i]` is
/// the distance at which it meets `scene.elements[i]`, if it does.
///
/// A ray at the greatest depth of the scene, or beyond, is black whatever it
/// meets, and so is a ray that meets nothing. Any other ray ends on the
/// nearest shape that it meets, and the surface of that shape decides. The
/// rays that it sends on are never deeper than the greatest depth of the
/// scene.
pub fn cast_ray(scene: &Scene, hits: &Vec<Option<Real>>, depth: u32) -> (shade: Shade)
    requires
        depth < scene.max_recursion_depth ==> hits.len() == scene.elements.len(),
        depth < scene.max_recursion_depth ==> forall|j: int|
            0 <= j < hits.len() && (#[trigger] hits[j]) is Some ==> hits[j].unwrap().finite(),
    ensures
        depth >= scene.max_recursion_depth ==> shade == Shade::Settled(Color::black()),
        (forall|j: int| 0 <= j < hits.len() ==> hits[j] is None) ==> shade == Shade::Settled(
            Color::black(),
        ),
        depth < scene.max_recursion_depth ==> forall|k: int|
            nearest(hits@, k) ==> shade == surface_shade(
                scene.elements[k].material().surface,
                k as usize,
                hits[k].unwrap(),
                depth,
            ),
        shade.next_depth() matches Some(next) ==> next == depth + 1 && next
            <= scene.max_recursion_depth,
{
    if depth >= scene.max_recursion_depth {
        return Shade::Settled(Color::black());
    }
    match scene.trace(hits) {
        Some(intersection) => {
            proof {
                assert forall|k: int| nearest(hits@, k) implies k == intersection.element() by {
                    crate::scene::lemma_nearest_unique(hits@, k, intersection.element() as int);
                }
            }
            get_color(scene, &intersection, depth)
        },
        None => Shade::Settled(Color::black()),
    }
}

/// What becomes of a ray that is cast `depth` rays deep and ends at the
/// given intersection: the surface of the shape decides.
pub fn get_color(scene: &Scene, intersection: &Intersection, depth: u32) -> (shade: Shade)
    requires
        depth < scene.max_recursion_depth,
        intersection.element() < scene.elements.len(),
    ensures
        shade == surface_shade(
            scene.elements[intersection.element() as int].material().surface,
            intersection.element(),
            intersection.distance(),
            depth,
        ),
{
    let element: usize = intersection.element();
    let distance: Real = intersection.distance();
    match scene.elements[element].material().surface {
        SurfaceType::Diffuse => Shade::Diffuse { element, distance },
        SurfaceType::Reflective { reflectivity } => Shade::Reflective {
            element,
            distance,
            reflectivity,
            depth: depth + 1,
        },
        SurfaceType::Refractive { index, transparency } => Shade::Refractive {
            element,
            distance,
            index,
            transparency,
            depth: depth + 1,
        },
    }
}

/// Whether a light reaches a point, given the nearest thing that the ray
/// from the point towards the light meets, at distance `shadow`, and the
/// distance `light_distance` of the light: nothing is in the way, or what is
/// there lies beyond the light.
pub open spec fn lit(shadow: Option<Real>, light_distance: Real) -> bool {
    match shadow {
        None => true,
        Some(distance) => distance.above(light_distance),
    }
}

/// The intensity at which a light of the given `intensity` reaches a point:
/// its own where the point is lit, zero where it is in shadow.
pub open spec fn received(shadow: Option<Real>, light_distance: Real, intensity: Real) -> Real {
    if lit(shadow, light_distance) {
        intensity
    } else {
        Real { bits: 0 }
    }
}

/// The part of a light's intensity that falls on a surface, where `cosine`
/// is the cosine of the angle between the normal of the surface and the
/// direction towards the light: the cosine itself, and nothing where the
/// light stands behind the surface.
pub fn incidence(cosine: Real) -> (part: Real)
    ensures
        part == if cosine.above(Real { bits: 0 }) {
            cosine
        } else {
            Real { bits: 0 }
        },
{
    if cosine.gt(Real::zero()) {
        cosine
    } else {
        Real::zero()
    }
}

/// The distance of an intersection, where there is one.
pub open spec fn distance_of(shadow: Option<Intersection>) -> Option<Real> {
    match shadow {
        None => None,
        Some(i) => Some(i.distance()),
    }
}

/// Whether a light at `light_distance` reaches a point, where
/// `shadow_intersection` is the nearest intersection of the ray from the
/// point towards the light.
pub fn in_light(shadow_intersection: &Option<Intersection>, light_distance: Real) -> (r: bool)
    ensures
        r == lit(distance_of(*shadow_intersection), light_distance),
{
    match shadow_intersection {
        None => true,
        Some(i) => i.distance().gt(light_distance),
    }
}

/// The intensity at which a light reaches a point: `intensity` where the
/// point is lit, zero where it is in shadow.
pub fn light_intensity(
    shadow_intersection: &Option<Intersection>,
    light_distance: Real,
    intensity: Real,
) -> (r: Real)
    ensures
        r == received(distance_of(*shadow_intersection), light_distance, intensity),
{
    if in_light(shadow_intersection, light_distance) {
        intensity
    } else {
        Real::zero()
    }
}

/// A shape between a point and a light takes all of that light from the
/// point: whatever the light's intensity, none is received.
pub proof fn lemma_occluder_before_light(occluder: Real, light_distance: Real, intensity: Real)
    requires
        !occluder.nan() && !light_distance.nan(),
        occluder.rank() <= light_distance.rank(),
    ensures
        received(Some(occluder), light_distance, intensity).bits == 0,
{
}

/// A shape beyond a light takes nothing from it: the point receives what it
/// would receive with nothing on the ray at all.
pub proof fn lemma_occluder_beyond_light(occluder: Real, light_distance: Real, intensity: Real)
    requires
        !occluder.nan() && !light_distance.nan(),
        occluder.rank() > light_distance.rank(),
    ensures
        received(Some(occluder), light_distance, intensity) == received(None, light_distance, intensity),
        received(Some(occluder), light_distance, intensity) == intensity,
{
}

/// On which side of a surface a ray arrives.
#[derive(Clone, Copy, Debug, PartialEq, Eq, Structural)]
pub enum Crossing {
    /// From outside, against the normal: into the medium.
    Entering,
    /// From inside, along the normal: out of the medium.
    Leaving,
}

impl Crossing {
    /// The side on which a ray arrives whose direction has
    /// `incident_dot_normal` of the surface normal in it: it leaves the
    /// medium exactly where it runs along the normal.
    pub open spec fn side(incident_dot_normal: Real) -> Crossing {
        if incident_dot_normal.above(Real { bits: 0 }) {
            Crossing::Leaving
        } else {
            Crossing::Entering
        }
    }

    /// The side on which a ray arrives.
    pub fn of(incident_dot_normal: Real) -> (c: Crossing)
        ensures
            c == Crossing::side(incident_dot_normal),
    {
        if incident_dot_normal.gt(Real::zero()) {
            Crossing::Leaving
        } else {
            Crossing::Entering
        }
    }

    /// The refractive indices of the medium that the ray comes from and of
    /// the one that it goes to, in this order, for a surface between empty
    /// space, of index 1, and a medium of the given `index`.
    pub fn indices(self, index: Real) -> (eta: (Real, Real))
        ensures
            eta == match self {
                Crossing::Entering => (Real { bits: ONE }, index),
                Crossing::Leaving => (index, Real { bits: ONE }),
            },
    {
        match self {
            Crossing::Entering => (Real::one(), index),
            Crossing::Leaving => (index, Real::one()),
        }
    }
}

/// The part of the light that a surface between two media mirrors. `sin_t`
/// is the sine of the angle at which the ray would go on in the second
/// medium, by Snell's law, and `reflectance` what Fresnel's equations give
/// for that angle. Where the sine is more than 1 there is no such angle and
/// all of the light is mirrored.
pub fn fresnel(sin_t: Real, reflectance: Real) -> (kr: Real)
    ensures
        kr == if sin_t.above(Real { bits: ONE }) {
            Real { bits: ONE }
        } else {
            reflectance
        },
{
    if sin_t.gt(Real::one()) {
        Real::one()
    } else {
        reflectance
    }
}

impl Ray {
    /// The ray that passes through a surface, if one does. `k` is the square
    /// of the cosine of the angle at which it goes on, as the refraction
    /// formula gives it, and `ray` the ray that the formula gives. Where `k`
    /// is below zero no light passes.
    pub fn create_transmission(k: Real, ray: Ray) -> (r: Option<Ray>)
        ensures
            r == if k.below(Real { bits: 0 }) {
                None
            } else {
                Some(ray)
            },
    {
        if k.lt(Real::zero()) {
            None
        } else {
            Some(ray)
        }
    }
}

/// How the light that leaves a refractive surface divides: the part `kr`
/// that is mirrored, and the ray that carries the rest through the surface,
/// if there is one to cast.
///
/// A ray is cast through the surface only where less than all of the light
/// is mirrored. Where that is so and yet no ray passes, all of the light is
/// mirrored after all.
pub open spec fn divided(kr: Real, transmission: Option<Ray>) -> (Real, Option<Ray>) {
    if kr.below(Real { bits: ONE }) {
        match transmission {
            Some(ray) => (kr, Some(ray)),
            None => (Real { bits: ONE }, None),
        }
    } else {
        (kr, None)
    }
}

/// How the light that leaves a refractive surface divides, for the mirrored
/// part `kr` that [`fresnel`] gives and the ray that
/// [`Ray::create_transmission`] gives.
pub fn divide(kr: Real, transmission: Option<Ray>) -> (parts: (Real, Option<Ray>))
    ensures
        parts == divided(kr, transmission),
{
    if kr.lt(Real::one()) {
        match transmission {
            Some(ray) => (kr, Some(ray)),
            None => (Real::one(), None),
        }
    } else {
        (kr, None)
    }
}

/// Whether `samples` are `n` colours that `sample` gave for the pixel in
/// column `x` and row `y`.
pub open spec fn sampled<S: Fn(u32, u32) -> Color>(
    samples: Seq<Color>,
    sample: S,
    x: u32,
    y: u32,
    n: u32,
) -> bool {
    &&& samples.len() == n
    &&& forall|k: int| 0 <= k < n ==> sample.ensures((x, y), #[trigger] samples[k])
}

/// Whether a pixel is opaque and holds red, green and blue as `develop` gave
/// them for `n` colours that `sample` gave for column `x` and row `y`.
pub open spec fn painted<S: Fn(u32, u32) -> Color, D: Fn(Vec<Color>) -> (u8, u8, u8)>(
    pixel: (u8, u8, u8, u8),
    sample: S,
    develop: D,
    x: u32,
    y: u32,
    n: u32,
) -> bool {
    &&& pixel.3 == 255
    &&& exists|samples: Vec<Color>| #[trigger]
        sampled(samples@, sample, x, y, n) && develop.ensures(
            (samples,),
            (pixel.0, pixel.1, pixel.2),
        )
}

/// The picture of a scene.
///
/// `sample(x, y)` is the colour of one ray through the pixel in column `x`
/// and row `y`; `develop` makes of the colours of one pixel the red, green
/// and blue to store, each as a byte. Column by column and, in a column, row
/// by row, each pixel is sampled as often as the scene says, the samples are
/// developed, and the pixel takes the outcome, opaque.
pub fn render<S: Fn(u32, u32) -> Color, D: Fn(Vec<Color>) -> (u8, u8, u8)>(
    scene: &Scene,
    sample: S,
    develop: D,
) -> (img: DynamicImage)
    requires
        scene.valid(),
        3 * scene.width * scene.height <= isize::MAX,
        forall|x: u32, y: u32| x < scene.width && y < scene.height ==> sample.requires((x, y)),
        forall|samples: Vec<Color>| samples.len() == scene.n_samples ==> develop.requires((samples,)),
    ensures
        image_size(img) == (scene.width as nat, scene.height as nat),
        image_is_rgb(img),
        forall|x: u32, y: u32|
            x < scene.width && y < scene.height ==> painted(
                #[trigger] image_pixels(img)[(x as int, y as int)],
                sample,
                develop,
                x,
                y,
                scene.n_samples,
            ),
{
    let mut img: DynamicImage = new_rgb8(scene.width, scene.height);
    let mut x: u32 = 0;
    while x < scene.width
        invariant
            x <= scene.width,
            image_size(img) == (scene.width as nat, scene.height as nat),
            image_is_rgb(img),
            forall|i: u32, j: u32| i < scene.width && j < scene.height ==> sample.requires((i, j)),
            forall|samples: Vec<Color>|
                samples.len() == scene.n_samples ==> develop.requires((samples,)),
            forall|i: u32, j: u32|
                i < x && j < scene.height ==> painted(
                    #[trigger] image_pixels(img)[(i as int, j as int)],
                    sample,
                    develop,
                    i,
                    j,
                    scene.n_samples,
                ),
        decreases scene.width - x,
    {
        let mut y: u32 = 0;
        while y < scene.height
            invariant
                x < scene.width,
                y <= scene.height,
                image_size(img) == (scene.width as nat, scene.height as nat),
                image_is_rgb(img),
                forall|i: u32, j: u32|
                    i < scene.width && j < scene.height ==> sample.requires((i, j)),
                forall|samples: Vec<Color>|
                    samples.len() == scene.n_samples ==> develop.requires((samples,)),
                forall|i: u32, j: u32|
                    (i < x && j < scene.height) || (i == x && j < y) ==> painted(
                        #[trigger] image_pixels(img)[(i as int, j as int)],
                        sample,
                        develop,
                        i,
                        j,
                        scene.n_samples,
                    ),
            decreases scene.height - y,
        {
            let mut samples: Vec<Color> = Vec::new();
            let mut k: u32 = 0;
            while k < scene.n_samples
                invariant
                    x < scene.width,
                    y < scene.height,
                    k <= scene.n_samples,
                    sample.requires((x, y)),
                    sampled(samples@, sample, x, y, k),
                decreases scene.n_samples - k,
            {
                let color: Color = sample(x, y);
                samples.push(color);
                k += 1;
            }
            let ghost taken = samples;
            assert(samples.len() == scene.n_samples);
            let rgb: (u8, u8, u8) = develop(samples);
            put_pixel(&mut img, x, y, (rgb.0, rgb.1, rgb.2, 255));
            proof {
                assert(sampled(taken@, sample, x, y, scene.n_samples));
                assert(painted(
                    image_pixels(img)[(x as int, y as int)],
                    sample,
                    develop,
                    x,
                    y,
                    scene.n_samples,
                ));
            }
            y += 1;
        }
        x += 1;
    }
    img
}

} // verus!
