//! The immutable reference frame captured when a widget is anchored.

use vstd::prelude::*;

use crate::geometry::{GeomModel, Geometry};

verus! {

/// The reference frame for all resize computations of one widget: the
/// widget's original geometry and its original distances from the parent's
/// trailing edges, captured once when the anchor is bound and never updated
/// afterwards. Anchoring is always relative to this original layout, not to
/// the previous frame.
///
/// The distances are kept as `i64` so that capturing never overflows: each
/// is a difference of two `i32` values.
#[derive(Clone, Copy, Debug, PartialEq, Eq, Structural)]
pub struct AnchorBinding {
    /// Original x position.
    pub x: i32,
    /// Original y position.
    pub y: i32,
    /// Original width.
    pub w: i32,
    /// Original height.
    pub h: i32,
    /// Original parent width minus original x.
    pub d_x: i64,
    /// Original parent height minus original y.
    pub d_y: i64,
    /// Original parent width minus original width.
    pub d_w: i64,
    /// Original parent height minus original height.
    pub d_h: i64,
}

/// The mathematical model of a binding, over unbounded integers.
pub ghost struct BindingModel {
    pub x: int,
    pub y: int,
    pub w: int,
    pub h: int,
    pub d_x: int,
    pub d_y: int,
    pub d_w: int,
    pub d_h: int,
}

impl View for AnchorBinding {
    type V = BindingModel;

    open spec fn view(&self) -> BindingModel {
        BindingModel {
            x: self.x as int,
            y: self.y as int,
            w: self.w as int,
            h: self.h as int,
            d_x: self.d_x as int,
            d_y: self.d_y as int,
            d_w: self.d_w as int,
            d_h: self.d_h as int,
        }
    }
}

/// The binding that capturing geometry `g` under a parent of size
/// `(p_w, p_h)` produces.
pub open spec fn capture_model(g: GeomModel, p_w: int, p_h: int) -> BindingModel {
    BindingModel {
        x: g.x,
        y: g.y,
        w: g.w,
        h: g.h,
        d_x: p_w - g.x,
        d_y: p_h - g.y,
        d_w: p_w - g.w,
        d_h: p_h - g.h,
    }
}

impl AnchorBinding {
    /// Captures the reference frame for a widget whose current geometry is
    /// `geom` under a parent of current size `(p_w, p_h)`.
    pub fn capture(geom: Geometry, p_w: i32, p_h: i32) -> (r: AnchorBinding)
        ensures
            r@ == capture_model(geom@, p_w as int, p_h as int),
    {
        AnchorBinding {
            x: geom.x,
            y: geom.y,
            w: geom.w,
            h: geom.h,
            d_x: p_w as i64 - geom.x as i64,
            d_y: p_h as i64 - geom.y as i64,
            d_w: p_w as i64 - geom.w as i64,
            d_h: p_h as i64 - geom.h as i64,
        }
    }
}

} // verus!
