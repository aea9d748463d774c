//! The single point light of a scene.

use vstd::prelude::*;
use crate::color::Color;
use crate::vec3::Vec3;

verus! {

#[derive(Clone, Copy, Debug)]
pub struct Light {
    pub position: Vec3,
    pub color: Color,
    /// Fixed-point intensity scalar.
    pub intensity: i64,
}

impl Light {
    pub fn new(position: Vec3, color: Color, intensity: i64) -> (l: Light)
        ensures
            l == (Light { position, color, intensity }),
    {
        Light { position, color, intensity }
    }
}

} // verus!
