//! Integer and control logic of a null-geodesic ray tracer around a
//! Schwarzschild black hole: procedural sky hashing, checkerboard parity,
//! the per-ray step controller, pixel addressing and image assembly.

pub mod camera;
pub mod cli;
pub mod raster;
pub mod render;
pub mod sky;
