//! A fly-camera model for a windowed 3D scene: a quaternion orientation, a
//! world position, and the projection / view matrices derived from them.
//!
//! All scalars are fixed-point numbers: an `i64` counts units of `1 / SCALE`
//! (`fx` values below). Every operation on them has an exact mathematical
//! description, so the per-frame camera update, the viewport resize and the
//! reset to defaults are specified and verified down to the last unit.
//!
//! The windowing system, the renderer and the asset loaders live outside this
//! crate; they only exchange plain values (intent flags, elapsed time, matrix
//! entries) with it.

pub mod camera;
pub mod config;
pub mod font_atlas;
pub mod fx;
pub mod gl_helpers;
pub mod input;
pub mod laws;
pub mod logger;
pub mod matrix;
pub mod quaternion;
pub mod trig;
pub mod vector;
