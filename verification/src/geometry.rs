//! A widget's position and size, and its mathematical model.

use vstd::prelude::*;

verus! {

/// A widget's geometry: position `(x, y)` and size `(w, h)`, in the
/// coordinate space of its top-level parent.
#[derive(Clone, Copy, Debug, PartialEq, Eq, Structural)]
pub struct Geometry {
    pub x: i32,
    pub y: i32,
    pub w: i32,
    pub h: i32,
}

/// The mathematical model of a geometry: the same four coordinates as
/// unbounded integers.
pub ghost struct GeomModel {
    pub x: int,
    pub y: int,
    pub w: int,
    pub h: int,
}

impl View for Geometry {
    type V = GeomModel;

    open spec fn view(&self) -> GeomModel {
        GeomModel { x: self.x as int, y: self.y as int, w: self.w as int, h: self.h as int }
    }
}

impl Geometry {
    /// Builds a geometry from its four coordinates.
    pub fn new(x: i32, y: i32, w: i32, h: i32) -> (r: Geometry)
        ensures
            r == (Geometry { x, y, w, h }),
    {
        Geometry { x, y, w, h }
    }
}

/// Whether an unbounded integer fits in a machine `i32` coordinate.
pub open spec fn fits_i32(v: int) -> bool {
    -0x8000_0000 <= v && v <= 0x7fff_ffff
}

/// Whether all four coordinates of a model geometry fit in machine `i32`s.
pub open spec fn geom_fits_i32(g: GeomModel) -> bool {
    fits_i32(g.x) && fits_i32(g.y) && fits_i32(g.w) && fits_i32(g.h)
}

} // verus!
