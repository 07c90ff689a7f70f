//! A point light: a color shining from a position.

use vstd::prelude::*;

use crate::color::RGBAColor;
use crate::coord::Coord;

verus! {

/// A colored light at a point in the scene.
#[derive(Debug, Clone, Copy, PartialEq, Eq, Structural)]
pub struct PointLight {
    pub color: RGBAColor,
    pub position: Coord,
}

} // verus!
