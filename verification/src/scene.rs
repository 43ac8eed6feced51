//! The scene: what is to be drawn, lit by what, seen from where.

use vstd::prelude::*;
use vstd::arithmetic::div_mod::{lemma_fundamental_div_mod, lemma_fundamental_div_mod_converse};
use image::DynamicImage;
use crate::bitmap::{get_pixel, height, image_pixels, image_size, width};
use crate::matrix::Matrix33;
use crate::point::Point;
use crate::scalar::{Real, ONE};
use crate::vector::Vector3;

verus! {

/// A colour in linear light: no light at 0, full light at 1.
#[derive(Clone, Copy, Debug, PartialEq, Eq, Structural)]
pub struct Color {
    pub red: Real,
    pub green: Real,
    pub blue: Real,
}

/// A channel brought into the range from 0 to 1: what lies above 1, and what
/// is no number, becomes 1; what lies below 0 becomes 0.
pub open spec fn clamped(channel: Real) -> Real {
    if channel.nan() || channel.rank() > ONE {
        Real { bits: ONE }
    } else if channel.rank() < 0 {
        Real { bits: 0 }
    } else {
        channel
    }
}

/// Whether a channel is a number from 0 to 1.
pub open spec fn in_range(channel: Real) -> bool {
    !channel.nan() && 0 <= channel.rank() <= ONE
}

fn clamp_channel(channel: Real) -> (r: Real)
    ensures
        r == clamped(channel),
{
    if channel.is_nan() || channel.gt(Real::one()) {
        Real::one()
    } else if channel.lt(Real::zero()) {
        Real::zero()
    } else {
        channel
    }
}

impl Color {
    /// Whether each channel is a number from 0 to 1.
    pub open spec fn in_range(self) -> bool {
        in_range(self.red) && in_range(self.green) && in_range(self.blue)
    }

    /// The colour with each channel brought into the range from 0 to 1.
    pub open spec fn clamped(self) -> Color {
        Color { red: clamped(self.red), green: clamped(self.green), blue: clamped(self.blue) }
    }

    /// Full light in every channel.
    pub open spec fn spec_white() -> Color {
        Color { red: Real { bits: ONE }, green: Real { bits: ONE }, blue: Real { bits: ONE } }
    }

    /// No light at all.
    pub open spec fn spec_black() -> Color {
        Color { red: Real { bits: 0 }, green: Real { bits: 0 }, blue: Real { bits: 0 } }
    }

    /// Full light in every channel.
    #[verifier::when_used_as_spec(spec_white)]
    pub fn white() -> (c: Color)
        ensures
            c == Color::spec_white(),
    {
        Color { red: Real::one(), green: Real::one(), blue: Real::one() }
    }

    /// No light at all.
    #[verifier::when_used_as_spec(spec_black)]
    pub fn black() -> (c: Color)
        ensures
            c == Color::spec_black(),
    {
        Color { red: Real::zero(), green: Real::zero(), blue: Real::zero() }
    }

    /// Brings each channel into the range from 0 to 1.
    pub fn clamp(&self) -> (c: Color)
        ensures
            c == self.clamped(),
            c.in_range(),
            self.in_range() ==> c == *self,
    {
        Color {
            red: clamp_channel(self.red),
            green: clamp_channel(self.green),
            blue: clamp_channel(self.blue),
        }
    }
}

/// Clamping a second time changes nothing.
pub proof fn lemma_clamp_idempotent(c: Color)
    ensures
        c.clamped().clamped() == c.clamped(),
{
}

/// Clamping leaves a colour alone whose channels all lie from 0 to 1.
pub proof fn lemma_clamp_keeps_range(c: Color)
    requires
        c.in_range(),
    ensures
        c.clamped() == c,
{
}

/// How a surface treats the light that reaches it.
#[derive(Clone, Copy, Debug)]
pub enum SurfaceType {
    /// Scatters it evenly.
    Diffuse,
    /// Scatters one part and mirrors the other: `reflectivity`, from 0 to 1,
    /// is the mirrored part.
    Reflective { reflectivity: Real },
    /// Lets light through, bent by the refractive `index` (above 1) and
    /// dimmed to `transparency` (from 0 to 1).
    Refractive { index: Real, transparency: Real },
}

/// Floored remainder of `coord` by `bound`.
pub open spec fn wrapped(coord: int, bound: int) -> int {
    coord % bound
}

/// The texel that a coordinate falls on in a texture that repeats every
/// `bound` texels, to the left of 0 as to the right.
pub fn wrap(coord: i32, bound: u32) -> (r: u32)
    requires
        0 < bound <= i32::MAX,
    ensures
        r == wrapped(coord as int, bound as int),
        r < bound,
{
    let signed_bound: i32 = bound as i32;
    let wrapped_coord: i32 = coord % signed_bound;
    proof {
        if coord < 0 {
            // What `%` leaves of a negative `coord` is no more than zero:
            // `-m`, for the remainder `m` of `-coord`.
            let a = coord as int;
            let b = bound as int;
            let q = (-a) / b;
            let m = (-a) % b;
            lemma_fundamental_div_mod(-a, b);
            if m == 0 {
                assert(a == (-q) * b + 0) by (nonlinear_arith)
                    requires
                        -a == b * q + m,
                        m == 0,
                ;
                lemma_fundamental_div_mod_converse(a, b, -q, 0);
            } else {
                assert(a == (-q - 1) * b + (b - m)) by (nonlinear_arith)
                    requires
                        -a == b * q + m,
                ;
                lemma_fundamental_div_mod_converse(a, b, -q - 1, b - m);
            }
        }
    }
    if wrapped_coord < 0 {
        (wrapped_coord + signed_bound) as u32
    } else {
        wrapped_coord as u32
    }
}

/// Where a surface takes its colour from.
pub enum Coloration {
    /// One colour all over.
    Color(Color),
    /// A bitmap, repeated in both directions.
    Texture(DynamicImage),
}

/// The colour of a surface at one place, as its coloration holds it.
#[derive(Clone, Copy, Debug, PartialEq, Eq, Structural)]
pub enum Sample {
    /// A colour in linear light.
    Linear(Color),
    /// Red, green and blue of a texel, each as the byte that the bitmap
    /// stores: gamma-encoded, 255 for full light.
    Encoded(u8, u8, u8),
}

impl Coloration {
    /// Whether a colour can be read off: always off a flat colour; off a
    /// texture if it has a texel at all and its sides can be counted in an
    /// `i32`.
    pub open spec fn readable(&self) -> bool {
        match *self {
            Coloration::Color(_) => true,
            Coloration::Texture(tex) => {
                &&& 0 < image_size(tex).0 <= i32::MAX
                &&& 0 < image_size(tex).1 <= i32::MAX
            },
        }
    }

    /// The colour at texel `(x, y)`: the flat colour wherever that is, or the
    /// texel of the texture that `(x, y)` falls on after wrapping round.
    pub open spec fn sampled(&self, x: int, y: int) -> Sample {
        match *self {
            Coloration::Color(c) => Sample::Linear(c),
            Coloration::Texture(tex) => {
                let at = (
                    wrapped(x, image_size(tex).0 as int),
                    wrapped(y, image_size(tex).1 as int),
                );
                let texel = image_pixels(tex)[at];
                Sample::Encoded(texel.0, texel.1, texel.2)
            },
        }
    }

    /// Width and height of the texture, where there is one. A caller scales
    /// its texture coordinates by them before it asks for a colour.
    pub fn extent(&self) -> (e: Option<(u32, u32)>)
        ensures
            match *self {
                Coloration::Color(_) => e is None,
                Coloration::Texture(tex) => e matches Some(size) && size.0 == image_size(tex).0
                    && size.1 == image_size(tex).1,
            },
    {
        match self {
            Coloration::Color(_) => None,
            Coloration::Texture(tex) => Some((width(tex), height(tex))),
        }
    }

    /// The colour at texel `(x, y)`.
    pub fn color(&self, x: i32, y: i32) -> (s: Sample)
        requires
            self.readable(),
        ensures
            s == self.sampled(x as int, y as int),
    {
        match self {
            Coloration::Color(c) => Sample::Linear(*c),
            Coloration::Texture(tex) => {
                let tex_x: u32 = wrap(x, width(tex));
                let tex_y: u32 = wrap(y, height(tex));
                let texel = get_pixel(tex, tex_x, tex_y);
                Sample::Encoded(texel.0, texel.1, texel.2)
            },
        }
    }

    /// The colour at texel `(x, y)`, or nothing where none can be read off.
    pub fn sample(&self, x: i32, y: i32) -> (s: Option<Sample>)
        ensures
            s == if self.readable() {
                Some(self.sampled(x as int, y as int))
            } else {
                None::<Sample>
            },
    {
        let fits: bool = match self.extent() {
            None => true,
            Some((w, h)) => 0 < w && w <= 0x7FFF_FFFF && 0 < h && h <= 0x7FFF_FFFF,
        };
        if fits {
            Some(self.color(x, y))
        } else {
            None
        }
    }
}

/// What a shape is made of.
pub struct Material {
    pub coloration: Coloration,
    /// The part of the incoming light that the surface scatters, from 0 to 1.
    pub albedo: Real,
    pub surface: SurfaceType,
}

/// A ball: every point within `radius` (above 0) of `centre`.
pub struct Sphere {
    pub centre: Point,
    pub radius: Real,
    pub material: Material,
}

/// A plane without bounds, through `origin` and square to the unit vector
/// `normal`.
pub struct Plane {
    pub origin: Point,
    pub normal: Vector3,
    pub material: Material,
}

/// The part of a plane within `radius` (above 0) of `origin`.
pub struct Disk {
    pub origin: Point,
    pub normal: Vector3,
    pub radius: Real,
    pub material: Material,
}

/// A shape in the scene.
pub enum Element {
    Sphere(Sphere),
    Plane(Plane),
    Disk(Disk),
}

impl Element {
    /// What the shape is made of.
    pub open spec fn spec_material(&self) -> &Material {
        match self {
            Element::Sphere(s) => &s.material,
            Element::Plane(p) => &p.material,
            Element::Disk(d) => &d.material,
        }
    }

    /// The colour of the shape at texel `(x, y)` of its coloration.
    pub fn color(&self, x: i32, y: i32) -> (s: Sample)
        requires
            self.spec_material().coloration.readable(),
        ensures
            s == self.spec_material().coloration.sampled(x as int, y as int),
    {
        self.material().coloration.color(x, y)
    }

    /// The part of the incoming light that the shape scatters.
    pub fn albedo(&self) -> (a: &Real)
        ensures
            *a == self.spec_material().albedo,
    {
        &self.material().albedo
    }

    /// What the shape is made of.
    #[verifier::when_used_as_spec(spec_material)]
    pub fn material(&self) -> (m: &Material)
        ensures
            m == self.spec_material(),
    {
        match self {
            Element::Sphere(s) => &s.material,
            Element::Plane(p) => &p.material,
            Element::Disk(d) => &d.material,
        }
    }
}

/// Light that comes from infinitely far away, all of it along the unit
/// vector `direction`.
pub struct DirectionalLight {
    pub direction: Vector3,
    pub color: Color,
    pub intensity: Real,
}

/// Light that spreads from `position` and thins out with the square of the
/// distance.
pub struct SphericalLight {
    pub position: Point,
    pub color: Color,
    pub intensity: Real,
}

/// The eye: where it stands, what it looks at, which way is up, and the
/// orientation worked out from the three before the first ray is cast.
pub struct Camera {
    pub position: Point,
    pub look_at: Point,
    pub up: Vector3,
    pub rotation_matrix: Matrix33,
}

/// A source of light.
pub enum Light {
    Directional(DirectionalLight),
    Spherical(SphericalLight),
}

impl Light {
    /// The colour of the light.
    pub fn color(&self) -> (c: Color)
        ensures
            c == match *self {
                Light::Directional(d) => d.color,
                Light::Spherical(s) => s.color,
            },
    {
        match self {
            Light::Directional(d) => d.color,
            Light::Spherical(s) => s.color,
        }
    }
}

/// All that a picture is made from. Nothing in a scene changes while it is
/// rendered.
pub struct Scene {
    /// Width of the picture in pixels; more than its height.
    pub width: u32,
    /// Height of the picture in pixels.
    pub height: u32,
    /// Field of view, in degrees.
    pub fov: Real,
    /// How far a secondary ray starts off the surface that sends it, so that
    /// it does not hit that surface again at once. Small and above 0.
    pub shadow_bias: Real,
    /// How many rays deep light is followed.
    pub max_recursion_depth: u32,
    pub elements: Vec<Element>,
    pub lights: Vec<Light>,
    pub camera: Camera,
    /// Rays cast for each pixel; at least 1.
    pub n_samples: u32,
}

/// Where a ray meets a shape: how far along the ray, and which shape of the
/// scene. The distance of an intersection is always finite: there is no way
/// to make one but [`Intersection::new`].
#[derive(Clone, Copy, Debug)]
pub struct Intersection {
    distance: Real,
    element: usize,
}

impl Intersection {
    #[verifier::type_invariant]
    spec fn sound(self) -> bool {
        self.distance.finite()
    }

    /// How far along the ray the shape is met.
    pub closed spec fn spec_distance(&self) -> Real {
        self.distance
    }

    /// Index of the shape in `Scene::elements`.
    pub closed spec fn spec_element(&self) -> usize {
        self.element
    }

    /// The intersection at `distance` with the shape at index `element`.
    pub fn new(distance: Real, element: usize) -> (i: Intersection)
        requires
            distance.finite(),
        ensures
            i.spec_distance() == distance,
            i.spec_element() == element,
    {
        Intersection { distance, element }
    }

    /// How far along the ray the shape is met.
    #[verifier::when_used_as_spec(spec_distance)]
    pub fn distance(&self) -> (d: Real)
        ensures
            d == self.spec_distance(),
            d.finite(),
    {
        proof {
            use_type_invariant(self);
        }
        self.distance
    }

    /// Index of the shape in `Scene::elements`.
    #[verifier::when_used_as_spec(spec_element)]
    pub fn element(&self) -> (e: usize)
        ensures
            e == self.spec_element(),
    {
        self.element
    }
}

/// Whether, of the first `n` shapes, the one at index `k` is hit, none is hit
/// nearer, and none before it is hit as near.
pub open spec fn first_nearest(hits: Seq<Option<Real>>, n: int, k: int) -> bool {
    &&& 0 <= k < n
    &&& hits[k] is Some
    &&& forall|j: int|
        0 <= j < n && (#[trigger] hits[j]) is Some ==> hits[k].unwrap().rank() <= hits[j].unwrap().rank()
    &&& forall|j: int|
        0 <= j < k && (#[trigger] hits[j]) is Some ==> hits[k].unwrap().rank() < hits[j].unwrap().rank()
}

/// Whether the shape at index `k` is the nearest that a ray hits: the first
/// of them, where several are hit at the same distance.
pub open spec fn nearest(hits: Seq<Option<Real>>, k: int) -> bool {
    first_nearest(hits, hits.len() as int, k)
}

/// At most one shape is the nearest.
pub proof fn lemma_nearest_unique(hits: Seq<Option<Real>>, k: int, l: int)
    requires
        nearest(hits, k),
        nearest(hits, l),
    ensures
        k == l,
{
}

impl Scene {
    /// Whether a picture can be made of the scene: it is wider than high,
    /// and each of its pixels gets at least one ray.
    pub open spec fn valid(&self) -> bool {
        self.width > self.height && self.n_samples >= 1
    }

    /// Whether a picture can be made of the scene.
    pub fn is_valid(&self) -> (r: bool)
        ensures
            r == self.valid(),
    {
        self.width > self.height && self.n_samples >= 1
    }

    /// The nearest intersection of a ray with the shapes of the scene, where
    /// `hits[i]` is the distance at which the ray meets `elements[i]`, if it
    /// does.
    pub fn trace(&self, hits: &Vec<Option<Real>>) -> (hit: Option<Intersection>)
        requires
            hits.len() == self.elements.len(),
            forall|j: int|
                0 <= j < hits.len() && (#[trigger] hits[j]) is Some ==> hits[j].unwrap().finite(),
        ensures
            match hit {
                None => forall|j: int| 0 <= j < hits.len() ==> hits[j] is None,
                Some(i) => nearest(hits@, i.element() as int) && hits[i.element() as int] == Some(
                    i.distance(),
                ),
            },
    {
        let mut best: Option<Intersection> = None;
        let mut n: usize = 0;
        while n < hits.len()
            invariant
                n <= hits.len(),
                forall|j: int|
                    0 <= j < hits.len() && (#[trigger] hits[j]) is Some ==> hits[j].unwrap().finite(),
                match best {
                    None => forall|j: int| 0 <= j < n ==> hits[j] is None,
                    Some(i) => first_nearest(hits@, n as int, i.element() as int) && hits[i.element() as int]
                        == Some(i.distance()),
                },
            decreases hits.len() - n,
        {
            match hits[n] {
                Some(d) => {
                    let closer: bool = match &best {
                        None => true,
                        Some(i) => d.lt(i.distance()),
                    };
                    if closer {
                        best = Some(Intersection::new(d, n));
                    }
                },
                None => {},
            }
            n += 1;
        }
        best
    }
}

} // verus!
