//! Tracing, as far as it is rules: the camera's fitness, the pixel grid, the
//! dispatch of one unit of work per pixel, the choice among hits, and the
//! shadow and depth-cue rules of the shader.

pub mod camera;
pub mod dispatch;
pub mod grid;
pub mod hit;
pub mod shade;
