//! A ray tracer after Whitted: spheres, planes and disks with matt,
//! mirroring and translucent surfaces, under lights with and without a
//! place, seen by a camera through a grid of pixels.
//!
//! This crate holds the scene and the rules of the tracer. It does not
//! compute with real numbers. Every number of a scene is held by its IEEE 754
//! binary64 encoding ([`scalar::Real`]); a caller evaluates the formulas of
//! the geometry in floating point and hands the results in, and what follows
//! from them is decided here: which of the shapes a ray meets first
//! ([`scene::Scene::trace`]), what becomes of the ray there and how deep its
//! rays go ([`rendering::cast_ray`]), whether a light reaches a point
//! ([`rendering::light_intensity`]), which texel a coordinate falls on
//! ([`scene::Coloration::color`]), and how samples make a picture
//! ([`rendering::render`]).

pub mod bitmap;
pub mod matrix;
pub mod point;
pub mod rendering;
pub mod scalar;
pub mod scene;
pub mod vector;
