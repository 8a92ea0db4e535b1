//! The anchor-to-geometry mapping: given the captured reference frame, the
//! anchor flag set, and the parent's current size, compute the widget's new
//! geometry.

use vstd::prelude::*;

use crate::anchor::Anchor;
use crate::binding::{AnchorBinding, BindingModel};
use crate::geometry::{geom_fits_i32, GeomModel, Geometry};

verus! {

/// The decision table, one row per anchor subset.
///
/// `b` is the reference frame captured at bind time, `cur` the widget's
/// geometry at the moment the resize event is handled, and `(p_w, p_h)` the
/// parent's current size. Coordinates that a row does not constrain keep
/// the original captured value; two rows (top+bottom+right and
/// bottom+left+right) deliberately keep the widget's current `x`
/// respectively current `y` instead. The rows are kept exactly as the
/// product defines them, asymmetries included.
pub open spec fn resize_model(
    a: Anchor,
    b: BindingModel,
    cur: GeomModel,
    p_w: int,
    p_h: int,
) -> GeomModel {
    match (a.left, a.top, a.right, a.bottom) {
        // left
        (true, false, false, false) => GeomModel { x: b.x, y: p_h - b.d_y, w: b.w, h: b.h },
        // right
        (false, false, true, false) => GeomModel { x: p_w - b.d_x, y: p_h - b.d_y, w: b.w, h: b.h },
        // top
        (false, true, false, false) => GeomModel { x: p_w - b.d_x, y: b.y, w: b.w, h: b.h },
        // bottom
        (false, false, false, true) => GeomModel { x: p_w - b.d_x, y: p_h - b.d_y, w: b.w, h: b.h },
        // left + right
        (true, false, true, false) => GeomModel { x: b.x, y: p_h - b.d_y, w: p_w - b.d_w, h: b.h },
        // top + right
        (false, true, true, false) => GeomModel { x: p_w - b.d_x, y: b.y, w: b.w, h: b.h },
        // bottom + right
        (false, false, true, true) => GeomModel { x: p_w - b.d_x, y: p_h - b.d_y, w: b.w, h: b.h },
        // top + left
        (true, true, false, false) => GeomModel { x: b.x, y: b.y, w: b.w, h: b.h },
        // bottom + left
        (true, false, false, true) => GeomModel { x: b.x, y: p_h - b.d_y, w: b.w, h: b.h },
        // top + bottom
        (false, true, false, true) => GeomModel { x: p_w - b.d_x, y: b.y, w: b.w, h: p_h - b.d_h },
        // top + bottom + left
        (true, true, false, true) => GeomModel { x: b.x, y: b.y, w: b.w, h: p_h - b.d_h },
        // top + bottom + right: keeps the widget's current x
        (false, true, true, true) => GeomModel {
            x: cur.x,
            y: b.y,
            w: p_w - b.d_w,
            h: p_h - b.d_h,
        },
        // top + left + right
        (true, true, true, false) => GeomModel { x: b.x, y: b.y, w: p_w - b.d_w, h: b.h },
        // bottom + left + right: keeps the widget's current y
        (true, false, true, true) => GeomModel {
            x: b.x,
            y: cur.y,
            w: p_w - b.d_w,
            h: p_h - b.d_h,
        },
        // top + bottom + left + right
        (true, true, true, true) => GeomModel { x: b.x, y: b.y, w: p_w - b.d_w, h: p_h - b.d_h },
        // no anchors
        (false, false, false, false) => GeomModel {
            x: p_w - b.d_x,
            y: p_h - b.d_y,
            w: b.w,
            h: b.h,
        },
    }
}

/// Computes the widget's new geometry for one resize event.
///
/// The precondition asks exactly that the table's result fits in machine
/// coordinates; every anchor subset and every parent size within that limit
/// is accepted.
pub fn resized_geometry(
    a: Anchor,
    b: &AnchorBinding,
    cur: Geometry,
    p_w: i32,
    p_h: i32,
) -> (r: Geometry)
    requires
        geom_fits_i32(resize_model(a, b@, cur@, p_w as int, p_h as int)),
    ensures
        r@ == resize_model(a, b@, cur@, p_w as int, p_h as int),
{
    match (a.left, a.top, a.right, a.bottom) {
        (true, false, false, false) => Geometry {
            x: b.x,
            y: (p_h as i64 - b.d_y) as i32,
            w: b.w,
            h: b.h,
        },
        (false, false, true, false) => Geometry {
            x: (p_w as i64 - b.d_x) as i32,
            y: (p_h as i64 - b.d_y) as i32,
            w: b.w,
            h: b.h,
        },
        (false, true, false, false) => Geometry {
            x: (p_w as i64 - b.d_x) as i32,
            y: b.y,
            w: b.w,
            h: b.h,
        },
        (false, false, false, true) => Geometry {
            x: (p_w as i64 - b.d_x) as i32,
            y: (p_h as i64 - b.d_y) as i32,
            w: b.w,
            h: b.h,
        },
        (true, false, true, false) => Geometry {
            x: b.x,
            y: (p_h as i64 - b.d_y) as i32,
            w: (p_w as i64 - b.d_w) as i32,
            h: b.h,
        },
        (false, true, true, false) => Geometry {
            x: (p_w as i64 - b.d_x) as i32,
            y: b.y,
            w: b.w,
            h: b.h,
        },
        (false, false, true, true) => Geometry {
            x: (p_w as i64 - b.d_x) as i32,
            y: (p_h as i64 - b.d_y) as i32,
            w: b.w,
            h: b.h,
        },
        (true, true, false, false) => Geometry { x: b.x, y: b.y, w: b.w, h: b.h },
        (true, false, false, true) => Geometry {
            x: b.x,
            y: (p_h as i64 - b.d_y) as i32,
            w: b.w,
            h: b.h,
        },
        (false, true, false, true) => Geometry {
            x: (p_w as i64 - b.d_x) as i32,
            y: b.y,
            w: b.w,
            h: (p_h as i64 - b.d_h) as i32,
        },
        (true, true, false, true) => Geometry {
            x: b.x,
            y: b.y,
            w: b.w,
            h: (p_h as i64 - b.d_h) as i32,
        },
        (false, true, true, true) => Geometry {
            x: cur.x,
            y: b.y,
            w: (p_w as i64 - b.d_w) as i32,
            h: (p_h as i64 - b.d_h) as i32,
        },
        (true, true, true, false) => Geometry {
            x: b.x,
            y: b.y,
            w: (p_w as i64 - b.d_w) as i32,
            h: b.h,
        },
        (true, false, true, true) => Geometry {
            x: b.x,
            y: cur.y,
            w: (p_w as i64 - b.d_w) as i32,
            h: (p_h as i64 - b.d_h) as i32,
        },
        (true, true, true, true) => Geometry {
            x: b.x,
            y: b.y,
            w: (p_w as i64 - b.d_w) as i32,
            h: (p_h as i64 - b.d_h) as i32,
        },
        (false, false, false, false) => Geometry {
            x: (p_w as i64 - b.d_x) as i32,
            y: (p_h as i64 - b.d_y) as i32,
            w: b.w,
            h: b.h,
        },
    }
}

/// Computes the widget's new geometry for one resize event, checking for
/// itself that the result fits in machine coordinates: `Some` exactly when
/// the table's result does, `None` otherwise. Every input is accepted.
pub fn checked_resized_geometry(
    a: Anchor,
    b: &AnchorBinding,
    cur: Geometry,
    p_w: i32,
    p_h: i32,
) -> (r: Option<Geometry>)
    ensures
        ({
            let m = resize_model(a, b@, cur@, p_w as int, p_h as int);
            if geom_fits_i32(m) {
                r matches Some(g) && g@ == m
            } else {
                r is None
            }
        }),
{
    // The two families of candidate coordinates: the original captured
    // values, and the values recomputed from the trailing-edge distances.
    // `i128` arithmetic cannot overflow on these operands.
    let fx: i128 = b.x as i128;
    let fy: i128 = b.y as i128;
    let fw: i128 = b.w as i128;
    let fh: i128 = b.h as i128;
    let tx: i128 = p_w as i128 - b.d_x as i128;
    let ty: i128 = p_h as i128 - b.d_y as i128;
    let tw: i128 = p_w as i128 - b.d_w as i128;
    let th: i128 = p_h as i128 - b.d_h as i128;
    let c: (i128, i128, i128, i128) = match (a.left, a.top, a.right, a.bottom) {
        (true, false, false, false) => (fx, ty, fw, fh),
        (false, false, true, false) => (tx, ty, fw, fh),
        (false, true, false, false) => (tx, fy, fw, fh),
        (false, false, false, true) => (tx, ty, fw, fh),
        (true, false, true, false) => (fx, ty, tw, fh),
        (false, true, true, false) => (tx, fy, fw, fh),
        (false, false, true, true) => (tx, ty, fw, fh),
        (true, true, false, false) => (fx, fy, fw, fh),
        (true, false, false, true) => (fx, ty, fw, fh),
        (false, true, false, true) => (tx, fy, fw, th),
        (true, true, false, true) => (fx, fy, fw, th),
        (false, true, true, true) => (cur.x as i128, fy, tw, th),
        (true, true, true, false) => (fx, fy, tw, fh),
        (true, false, true, true) => (fx, cur.y as i128, tw, th),
        (true, true, true, true) => (fx, fy, tw, th),
        (false, false, false, false) => (tx, ty, fw, fh),
    };
    if -0x8000_0000 <= c.0 && c.0 <= 0x7fff_ffff && -0x8000_0000 <= c.1 && c.1 <= 0x7fff_ffff
        && -0x8000_0000 <= c.2 && c.2 <= 0x7fff_ffff && -0x8000_0000 <= c.3 && c.3 <= 0x7fff_ffff {
        Some(Geometry { x: c.0 as i32, y: c.1 as i32, w: c.2 as i32, h: c.3 as i32 })
    } else {
        None
    }
}

} // verus!
