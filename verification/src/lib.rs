//! A Whitted-style raytracer for a voxel diorama: ray/axis-aligned-cube
//! intersection with face and UV attribution, recursive shading with shadows,
//! reflection and refraction, an orbit/zoom camera, and nearest-neighbour
//! texture sampling.
//!
//! All geometry and colour arithmetic is carried out in signed fixed-point
//! numbers with six fractional decimal digits (see [`fx`]), so every function
//! of the pipeline is deterministic and fully specified.

#![verifier::loop_isolation(false)]

pub mod camera;
pub mod color;
pub mod cube;
pub mod fx;
pub mod light;
pub mod material;
pub mod ray_intersect;
pub mod render;
pub mod texture_manager;
pub mod textures;
pub mod trig;
pub mod vec3;

pub use fx::FX_ONE;
