//! Properties of the decision table, proved once and for all: returning the
//! parent to its original size restores the original geometry, the full
//! anchor tracks the parent's size delta exactly, the empty anchor behaves
//! like bottom+right, and one resize event is idempotent.

use vstd::prelude::*;

use crate::anchor::Anchor;
use crate::binding::{capture_model, BindingModel};
use crate::engine::resize_model;
use crate::geometry::GeomModel;
use crate::widget::{dispatch_model, HandlerModel};

verus! {

/// Whether the anchor set's table row reads the widget's current x
/// (only top+bottom+right does).
pub open spec fn reads_cur_x(a: Anchor) -> bool {
    a == (Anchor { left: false, top: true, right: true, bottom: true })
}

/// Whether the anchor set's table row reads the widget's current y
/// (only bottom+left+right does).
pub open spec fn reads_cur_y(a: Anchor) -> bool {
    a == (Anchor { left: true, top: false, right: true, bottom: true })
}

/// The coordinates the table reads from the current geometry agree with
/// the original geometry `g0`. This holds of every geometry a resize chain
/// starting at `g0` can produce.
pub open spec fn keeps_current_coords(a: Anchor, g0: GeomModel, g: GeomModel) -> bool {
    (reads_cur_x(a) ==> g.x == g0.x) && (reads_cur_y(a) ==> g.y == g0.y)
}

/// The geometry after a sequence of resize events, each delivering one
/// parent size, has been applied in order.
pub open spec fn resize_chain(
    a: Anchor,
    b: BindingModel,
    g: GeomModel,
    sizes: Seq<(int, int)>,
) -> GeomModel
    decreases sizes.len(),
{
    if sizes.len() == 0 {
        g
    } else {
        resize_chain(
            a,
            b,
            resize_model(a, b, g, sizes[0].0, sizes[0].1),
            sizes.drop_first(),
        )
    }
}

/// One resize step keeps `keeps_current_coords`: the two rows that read a
/// current coordinate write it back unchanged.
proof fn lemma_step_keeps_current_coords(
    a: Anchor,
    b: BindingModel,
    g0: GeomModel,
    g: GeomModel,
    p_w: int,
    p_h: int,
)
    requires
        keeps_current_coords(a, g0, g),
    ensures
        keeps_current_coords(a, g0, resize_model(a, b, g, p_w, p_h)),
{
}

/// A whole resize chain keeps `keeps_current_coords`.
proof fn lemma_chain_keeps_current_coords(
    a: Anchor,
    b: BindingModel,
    g0: GeomModel,
    g: GeomModel,
    sizes: Seq<(int, int)>,
)
    requires
        keeps_current_coords(a, g0, g),
    ensures
        keeps_current_coords(a, g0, resize_chain(a, b, g, sizes)),
    decreases sizes.len(),
{
    if sizes.len() > 0 {
        lemma_step_keeps_current_coords(a, b, g0, g, sizes[0].0, sizes[0].1);
        lemma_chain_keeps_current_coords(
            a,
            b,
            g0,
            resize_model(a, b, g, sizes[0].0, sizes[0].1),
            sizes.drop_first(),
        );
    }
}

/// Resizing the parent back to the size the binding was captured under
/// restores the original geometry, whatever resize events came in between.
/// This holds for every anchor subset and every original geometry that
/// fits its parent.
pub proof fn lemma_resize_round_trip(
    a: Anchor,
    g0: GeomModel,
    p_w0: int,
    p_h0: int,
    sizes: Seq<(int, int)>,
)
    requires
        g0.w <= p_w0,
        g0.h <= p_h0,
    ensures
        resize_model(
            a,
            capture_model(g0, p_w0, p_h0),
            resize_chain(a, capture_model(g0, p_w0, p_h0), g0, sizes),
            p_w0,
            p_h0,
        ) == g0,
{
    lemma_chain_keeps_current_coords(a, capture_model(g0, p_w0, p_h0), g0, g0, sizes);
}

/// Under the full anchor the widget grows and shrinks by exactly the
/// parent's size delta, and its position never changes.
pub proof fn lemma_full_anchor_tracks_parent(
    g0: GeomModel,
    p_w0: int,
    p_h0: int,
    cur: GeomModel,
    p_w: int,
    p_h: int,
)
    ensures
        resize_model(
            (Anchor { left: true, top: true, right: true, bottom: true }),
            capture_model(g0, p_w0, p_h0),
            cur,
            p_w,
            p_h,
        ) == (GeomModel {
            x: g0.x,
            y: g0.y,
            w: g0.w + (p_w - p_w0),
            h: g0.h + (p_h - p_h0),
        }),
{
}

/// Under the left-only anchor the x position and the size never change,
/// and y tracks the parent's height so that the original distance from the
/// bottom edge is kept.
pub proof fn lemma_left_anchor_keeps_bottom_distance(
    g0: GeomModel,
    p_w0: int,
    p_h0: int,
    cur: GeomModel,
    p_w: int,
    p_h: int,
)
    ensures
        ({
            let r = resize_model(
                (Anchor { left: true, top: false, right: false, bottom: false }),
                capture_model(g0, p_w0, p_h0),
                cur,
                p_w,
                p_h,
            );
            r.x == g0.x && r.w == g0.w && r.h == g0.h && p_h - r.y == p_h0 - g0.y
        }),
{
}

/// The empty anchor set computes exactly what bottom+right computes, for
/// every binding and every parent size.
pub proof fn lemma_none_equals_bottom_right(
    b: BindingModel,
    cur: GeomModel,
    p_w: int,
    p_h: int,
)
    ensures
        resize_model(
            (Anchor { left: false, top: false, right: false, bottom: false }),
            b,
            cur,
            p_w,
            p_h,
        ) == resize_model(
            (Anchor { left: false, top: false, right: true, bottom: true }),
            b,
            cur,
            p_w,
            p_h,
        ),
{
}

/// Under the empty anchor set the widget's distances from the parent's
/// right and bottom edges stay what they were at capture time, and its
/// size never changes.
pub proof fn lemma_none_keeps_trailing_distances(
    g0: GeomModel,
    p_w0: int,
    p_h0: int,
    cur: GeomModel,
    p_w: int,
    p_h: int,
)
    ensures
        ({
            let r = resize_model(
                (Anchor { left: false, top: false, right: false, bottom: false }),
                capture_model(g0, p_w0, p_h0),
                cur,
                p_w,
                p_h,
            );
            p_w - r.x == p_w0 - g0.x && p_h - r.y == p_h0 - g0.y && r.w == g0.w && r.h == g0.h
        }),
{
}

/// One handler's resize computation is idempotent: delivering the same
/// parent size twice yields the same geometry both times.
pub proof fn lemma_resize_idempotent(
    a: Anchor,
    b: BindingModel,
    cur: GeomModel,
    p_w: int,
    p_h: int,
)
    ensures
        resize_model(a, b, resize_model(a, b, cur, p_w, p_h), p_w, p_h)
            == resize_model(a, b, cur, p_w, p_h),
{
}

/// Each output coordinate of one resize step is either independent of the
/// current geometry or copied from it unchanged.
proof fn lemma_step_cur_dependence(
    a: Anchor,
    b: BindingModel,
    g1: GeomModel,
    g2: GeomModel,
    p_w: int,
    p_h: int,
)
    ensures
        ({
            let r1 = resize_model(a, b, g1, p_w, p_h);
            let r2 = resize_model(a, b, g2, p_w, p_h);
            (r1.x == r2.x || (r1.x == g1.x && r2.x == g2.x))
                && (r1.y == r2.y || (r1.y == g1.y && r2.y == g2.y))
                && (r1.w == r2.w || (r1.w == g1.w && r2.w == g2.w))
                && (r1.h == r2.h || (r1.h == g1.h && r2.h == g2.h))
        }),
{
}

/// The coordinate structure of one step lifts to a whole dispatch: each
/// output coordinate is either independent of the starting geometry or
/// copied from it unchanged.
proof fn lemma_dispatch_cur_dependence(
    hs: Seq<HandlerModel>,
    g1: GeomModel,
    g2: GeomModel,
    p_w: int,
    p_h: int,
)
    ensures
        ({
            let r1 = dispatch_model(hs, g1, p_w, p_h);
            let r2 = dispatch_model(hs, g2, p_w, p_h);
            (r1.x == r2.x || (r1.x == g1.x && r2.x == g2.x))
                && (r1.y == r2.y || (r1.y == g1.y && r2.y == g2.y))
                && (r1.w == r2.w || (r1.w == g1.w && r2.w == g2.w))
                && (r1.h == r2.h || (r1.h == g1.h && r2.h == g2.h))
        }),
    decreases hs.len(),
{
    if hs.len() > 0 {
        let n1 = resize_model(hs[0].anchor, hs[0].binding, g1, p_w, p_h);
        let n2 = resize_model(hs[0].anchor, hs[0].binding, g2, p_w, p_h);
        lemma_step_cur_dependence(hs[0].anchor, hs[0].binding, g1, g2, p_w, p_h);
        lemma_dispatch_cur_dependence(hs.drop_first(), n1, n2, p_w, p_h);
        assert(dispatch_model(hs, g1, p_w, p_h) == dispatch_model(hs.drop_first(), n1, p_w, p_h));
        assert(dispatch_model(hs, g2, p_w, p_h) == dispatch_model(hs.drop_first(), n2, p_w, p_h));
    }
}

/// Dispatching all of a widget's handlers is idempotent: delivering the
/// same parent size twice yields the same geometry both times, however
/// many anchors are bound.
pub proof fn lemma_dispatch_idempotent(hs: Seq<HandlerModel>, g: GeomModel, p_w: int, p_h: int)
    ensures
        dispatch_model(hs, dispatch_model(hs, g, p_w, p_h), p_w, p_h)
            == dispatch_model(hs, g, p_w, p_h),
{
    lemma_dispatch_cur_dependence(hs, dispatch_model(hs, g, p_w, p_h), g, p_w, p_h);
}

/// Binding twice installs two handlers and both fire on one resize event:
/// the dispatch applies the first-bound handler's row, then the
/// second-bound handler's row to what the first one left; the handler
/// dispatched last determines the final geometry.
pub proof fn lemma_two_handlers_fire_in_order(
    h1: HandlerModel,
    h2: HandlerModel,
    g: GeomModel,
    p_w: int,
    p_h: int,
)
    ensures
        dispatch_model(seq![h1, h2], g, p_w, p_h) == resize_model(
            h2.anchor,
            h2.binding,
            resize_model(h1.anchor, h1.binding, g, p_w, p_h),
            p_w,
            p_h,
        ),
{
    let s = seq![h1, h2];
    let r1 = resize_model(h1.anchor, h1.binding, g, p_w, p_h);
    let r2 = resize_model(h2.anchor, h2.binding, r1, p_w, p_h);
    assert(s[0] == h1);
    assert(s.drop_first() =~= seq![h2]);
    assert(dispatch_model(s, g, p_w, p_h) == dispatch_model(seq![h2], r1, p_w, p_h));
    assert(seq![h2][0] == h2);
    assert(seq![h2].drop_first() =~= Seq::<HandlerModel>::empty());
    assert(dispatch_model(seq![h2], r1, p_w, p_h) == dispatch_model(
        Seq::<HandlerModel>::empty(),
        r2,
        p_w,
        p_h,
    ));
    assert(dispatch_model(Seq::<HandlerModel>::empty(), r2, p_w, p_h) == r2);
}

} // verus!
