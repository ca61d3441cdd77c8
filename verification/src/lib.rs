//! The rules of a ray tracer, stated and proved.
//!
//! A renderer measures and it decides. What it measures (dot products,
//! roots, distances, colours) is arithmetic on floats and stays with the
//! caller. What it decides is here: whether a camera is fit to render,
//! where each pixel goes and who computes it, which root of a quadratic is
//! the hit, which surface a ray meets first, which bodies shadow a point,
//! where the depth cue sets in, and how a finished frame becomes bytes.
//! Every function carries a contract that Verus proves.
//!
//! Measured quantities enter as ordinals: integers that are less, equal or
//! greater exactly as the numbers are (`math::ordinal`). Only the order of
//! a measurement matters to a rule.

pub mod graphics;
pub mod math;
pub mod raytracer;
