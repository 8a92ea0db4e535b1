//! One test per row of the anchor decision table, each driven through the
//! full pipeline: bind, resize the parent, read the geometry back.

use fltk_anchor::{Anchor, Anchored, AnchoredWidget, Geometry};

/// Binds `anchor` on a widget at (10, 20, 80, 40) under a 400x300 parent,
/// resizes the parent to 600x500, and returns the resulting geometry.
///
/// The captured distances are d_x = 390, d_y = 280, d_w = 320, d_h = 260.
fn after_resize(anchor: Anchor) -> Geometry {
    let mut w = AnchoredWidget::new(Geometry::new(10, 20, 80, 40), 400, 300);
    w.set_anchor(anchor).unwrap();
    w.resize_parent(600, 500);
    w.geometry()
}

#[test]
fn row_left() {
    assert_eq!(after_resize(Anchor::left()), Geometry::new(10, 220, 80, 40));
}

#[test]
fn row_right() {
    assert_eq!(after_resize(Anchor::right()), Geometry::new(210, 220, 80, 40));
}

#[test]
fn row_top() {
    assert_eq!(after_resize(Anchor::top()), Geometry::new(210, 20, 80, 40));
}

#[test]
fn row_bottom() {
    assert_eq!(after_resize(Anchor::bottom()), Geometry::new(210, 220, 80, 40));
}

#[test]
fn row_left_right() {
    assert_eq!(
        after_resize(Anchor::left().or(Anchor::right())),
        Geometry::new(10, 220, 280, 40)
    );
}

#[test]
fn row_top_right() {
    assert_eq!(
        after_resize(Anchor::top().or(Anchor::right())),
        Geometry::new(210, 20, 80, 40)
    );
}

#[test]
fn row_bottom_right() {
    assert_eq!(
        after_resize(Anchor::bottom().or(Anchor::right())),
        Geometry::new(210, 220, 80, 40)
    );
}

#[test]
fn row_top_left() {
    assert_eq!(
        after_resize(Anchor::top().or(Anchor::left())),
        Geometry::new(10, 20, 80, 40)
    );
}

#[test]
fn row_bottom_left() {
    assert_eq!(
        after_resize(Anchor::bottom().or(Anchor::left())),
        Geometry::new(10, 220, 80, 40)
    );
}

#[test]
fn row_top_bottom() {
    assert_eq!(
        after_resize(Anchor::top().or(Anchor::bottom())),
        Geometry::new(210, 20, 80, 240)
    );
}

#[test]
fn row_top_bottom_left() {
    assert_eq!(
        after_resize(Anchor::top().or(Anchor::bottom()).or(Anchor::left())),
        Geometry::new(10, 20, 80, 240)
    );
}

#[test]
fn row_top_bottom_right() {
    // This row keeps the widget's current x, which on the first resize is
    // still the original x.
    assert_eq!(
        after_resize(Anchor::top().or(Anchor::bottom()).or(Anchor::right())),
        Geometry::new(10, 20, 280, 240)
    );
}

#[test]
fn row_top_left_right() {
    assert_eq!(
        after_resize(Anchor::top().or(Anchor::left()).or(Anchor::right())),
        Geometry::new(10, 20, 280, 40)
    );
}

#[test]
fn row_bottom_left_right() {
    // This row keeps the widget's current y, which on the first resize is
    // still the original y.
    assert_eq!(
        after_resize(Anchor::bottom().or(Anchor::left()).or(Anchor::right())),
        Geometry::new(10, 20, 280, 240)
    );
}

#[test]
fn row_full() {
    assert_eq!(
        after_resize(
            Anchor::top()
                .or(Anchor::bottom())
                .or(Anchor::left())
                .or(Anchor::right())
        ),
        Geometry::new(10, 20, 280, 240)
    );
}

#[test]
fn row_none() {
    assert_eq!(after_resize(Anchor::none()), Geometry::new(210, 220, 80, 40));
}
