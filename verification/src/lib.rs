//! Core library of an offline recursive path tracer.
//!
//! The renderer around this library walks every pixel of an image, shoots a
//! camera ray into a scene of spheres and planes, and gathers radiance along
//! recursive bounces. The floating-point geometry and shading live outside;
//! this crate holds the verified part: the pixel buffer the renderer fills,
//! the byte layout handed to an image encoder, and the comparison and
//! selection logic with which the scene picks the nearest hit and tests
//! shadow occlusion.

pub mod color;
pub mod render;
pub mod scene;
pub mod utils;
