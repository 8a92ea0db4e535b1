//! Behavior of binding and dispatch: the captured reference frame, the
//! documented properties of the table, error cases, and double binding.

use fltk_anchor::{Anchor, AnchorBinding, AnchorError, Anchored, AnchoredWidget, Geometry};

#[test]
fn capture_records_original_distances() {
    let b = AnchorBinding::capture(Geometry::new(10, 10, 80, 40), 400, 300);
    assert_eq!(b.x, 10);
    assert_eq!(b.y, 10);
    assert_eq!(b.w, 80);
    assert_eq!(b.h, 40);
    assert_eq!(b.d_x, 390);
    assert_eq!(b.d_y, 290);
    assert_eq!(b.d_w, 320);
    assert_eq!(b.d_h, 260);
}

#[test]
fn capture_never_overflows() {
    let b = AnchorBinding::capture(
        Geometry::new(i32::MIN, i32::MIN, i32::MIN, i32::MIN),
        i32::MAX,
        i32::MAX,
    );
    assert_eq!(b.d_x, i32::MAX as i64 - i32::MIN as i64);
    assert_eq!(b.d_h, i32::MAX as i64 - i32::MIN as i64);
}

#[test]
fn anchor_or_is_the_union() {
    let a = Anchor::left().or(Anchor::top());
    assert!(a.left && a.top && !a.right && !a.bottom);
    let n = Anchor::none();
    assert!(!n.left && !n.top && !n.right && !n.bottom);
}

#[test]
fn left_anchor_tracks_bottom_distance() {
    // The documented example: original (10, 10, 80, 40) under a 400x300
    // parent gives d_y = 290; resizing to 400x500 moves y to 210.
    let mut w = AnchoredWidget::new(Geometry::new(10, 10, 80, 40), 400, 300);
    w.set_anchor(Anchor::left()).unwrap();
    w.resize_parent(400, 500);
    assert_eq!(w.geometry(), Geometry::new(10, 210, 80, 40));
}

#[test]
fn full_anchor_grows_by_parent_delta() {
    let mut w = AnchoredWidget::new(Geometry::new(10, 10, 80, 40), 400, 300);
    w.set_anchor(
        Anchor::left()
            .or(Anchor::top())
            .or(Anchor::right())
            .or(Anchor::bottom()),
    )
    .unwrap();
    w.resize_parent(640, 360);
    // Position unchanged; the size grew by exactly the parent's delta.
    assert_eq!(w.geometry(), Geometry::new(10, 10, 80 + 240, 40 + 60));
}

#[test]
fn none_behaves_like_bottom_right() {
    let g = Geometry::new(30, 40, 100, 50);
    let mut unanchored = AnchoredWidget::new(g, 400, 300);
    unanchored.set_anchor(Anchor::none()).unwrap();
    unanchored.resize_parent(500, 450);

    let mut br = AnchoredWidget::new(g, 400, 300);
    br.set_anchor(Anchor::bottom().or(Anchor::right())).unwrap();
    br.resize_parent(500, 450);

    assert_eq!(unanchored.geometry(), br.geometry());
    // Distances from the right and bottom edges stay constant, the size
    // stays constant.
    let r = unanchored.geometry();
    assert_eq!(500 - r.x, 400 - 30);
    assert_eq!(450 - r.y, 300 - 40);
    assert_eq!(r.w, 100);
    assert_eq!(r.h, 50);
}

#[test]
fn resize_back_restores_original() {
    for anchor in [
        Anchor::none(),
        Anchor::left(),
        Anchor::top().or(Anchor::bottom()),
        Anchor::top().or(Anchor::bottom()).or(Anchor::right()),
        Anchor::bottom().or(Anchor::left()).or(Anchor::right()),
        Anchor::left()
            .or(Anchor::top())
            .or(Anchor::right())
            .or(Anchor::bottom()),
    ] {
        let g = Geometry::new(10, 20, 80, 40);
        let mut w = AnchoredWidget::new(g, 400, 300);
        w.set_anchor(anchor).unwrap();
        w.resize_parent(600, 500);
        w.resize_parent(250, 750);
        w.resize_parent(400, 300);
        assert_eq!(w.geometry(), g);
    }
}

#[test]
fn resize_is_idempotent() {
    let mut w = AnchoredWidget::new(Geometry::new(10, 20, 80, 40), 400, 300);
    w.set_anchor(Anchor::left().or(Anchor::right())).unwrap();
    w.resize_parent(600, 500);
    let first = w.geometry();
    w.resize_parent(600, 500);
    assert_eq!(w.geometry(), first);
}

#[test]
fn resize_uses_original_binding_not_previous_frame() {
    let mut w = AnchoredWidget::new(Geometry::new(10, 20, 80, 40), 400, 300);
    w.set_anchor(Anchor::left()).unwrap();
    w.resize_parent(600, 500);
    w.resize_parent(800, 700);
    // y = 700 - d_y with d_y = 300 - 20 captured at bind time, not
    // relative to the 600x500 frame.
    assert_eq!(w.geometry(), Geometry::new(10, 420, 80, 40));
}

#[test]
fn set_anchor_without_parent_fails() {
    let mut w = AnchoredWidget::detached(Geometry::new(10, 20, 80, 40));
    assert_eq!(w.set_anchor(Anchor::left()), Err(AnchorError::NoParent));
    assert_eq!(w.handler_count(), 0);
}

#[test]
fn with_anchor_chains() {
    let mut w = AnchoredWidget::new(Geometry::new(10, 20, 80, 40), 400, 300)
        .with_anchor(Anchor::left());
    assert_eq!(w.handler_count(), 1);
    w.resize_parent(400, 500);
    assert_eq!(w.geometry(), Geometry::new(10, 220, 80, 40));
}

#[test]
fn with_anchor_without_parent_leaves_widget_unchanged() {
    let w = AnchoredWidget::detached(Geometry::new(10, 20, 80, 40)).with_anchor(Anchor::left());
    assert_eq!(w.handler_count(), 0);
    assert!(!w.is_attached());
}

#[test]
fn binding_twice_fires_both_handlers() {
    let mut w = AnchoredWidget::new(Geometry::new(10, 20, 80, 40), 400, 300);
    w.set_anchor(Anchor::left()).unwrap();
    w.set_anchor(Anchor::none()).unwrap();
    assert_eq!(w.handler_count(), 2);
    w.resize_parent(600, 500);
    // The first handler moves y to 500 - 280 = 220; the second, dispatched
    // last, recomputes both coordinates from its own binding and wins.
    assert_eq!(w.geometry(), Geometry::new(210, 220, 80, 40));
}

#[test]
fn binding_twice_applies_handlers_in_order() {
    // The first handler is top+bottom+right, whose row keeps the current
    // x; the second is left-only, which fixes x back to the original. The
    // final geometry is what the second handler leaves.
    let mut w = AnchoredWidget::new(Geometry::new(10, 20, 80, 40), 400, 300);
    w.set_anchor(Anchor::top().or(Anchor::bottom()).or(Anchor::right()))
        .unwrap();
    w.set_anchor(Anchor::left()).unwrap();
    w.resize_parent(600, 500);
    assert_eq!(w.geometry(), Geometry::new(10, 220, 80, 40));
}

#[test]
fn binding_twice_second_handler_sees_first_mutation() {
    // The second handler's row (top+bottom+right) keeps the current x, so
    // the final x is 210 only because the first handler (right) moved it
    // there: the final geometry witnesses both mutations.
    let mut w = AnchoredWidget::new(Geometry::new(10, 20, 80, 40), 400, 300);
    w.set_anchor(Anchor::right()).unwrap();
    w.set_anchor(Anchor::top().or(Anchor::bottom()).or(Anchor::right()))
        .unwrap();
    w.resize_parent(600, 500);
    assert_eq!(w.geometry(), Geometry::new(210, 20, 280, 240));
}

#[test]
fn checked_resize_matches_table() {
    let b = AnchorBinding::capture(Geometry::new(10, 20, 80, 40), 400, 300);
    let cur = Geometry::new(10, 20, 80, 40);
    let r = fltk_anchor::checked_resized_geometry(Anchor::left(), &b, cur, 600, 500);
    assert_eq!(r, Some(Geometry::new(10, 220, 80, 40)));
    assert_eq!(
        r,
        Some(fltk_anchor::resized_geometry(Anchor::left(), &b, cur, 600, 500))
    );
}

#[test]
fn checked_resize_rejects_coordinates_out_of_range() {
    // d_x is about 2^32, so the recomputed x falls far below i32::MIN.
    let b = AnchorBinding::capture(Geometry::new(i32::MIN, 0, 10, 10), i32::MAX, 100);
    let cur = Geometry::new(i32::MIN, 0, 10, 10);
    let r = fltk_anchor::checked_resized_geometry(Anchor::right(), &b, cur, 0, 100);
    assert_eq!(r, None);
}
