//! Per-widget anchor state and the resize-event dispatch.
//!
//! `AnchoredWidget` models one widget of the host toolkit: its current
//! geometry, the size of its parent (if it is attached to one), and the
//! list of anchor handlers registered on it, in registration order. On a
//! resize event every registered handler fires, in order, and each applies
//! its own decision-table row to the widget's geometry; when several
//! handlers are bound, the one dispatched last determines the final value.

use vstd::prelude::*;

use crate::anchor::Anchor;
use crate::binding::{capture_model, AnchorBinding, BindingModel};
use crate::engine::{resize_model, resized_geometry};
use crate::geometry::{geom_fits_i32, GeomModel, Geometry};

verus! {

/// The size of a widget's parent container.
#[derive(Clone, Copy, Debug, PartialEq, Eq, Structural)]
pub struct ParentSize {
    pub w: i32,
    pub h: i32,
}

/// One registered resize handler: the anchor flags it was bound with and
/// the reference frame captured at bind time.
#[derive(Clone, Copy, Debug, PartialEq, Eq, Structural)]
pub struct AnchorHandler {
    pub anchor: Anchor,
    pub binding: AnchorBinding,
}

/// The mathematical model of one handler.
pub ghost struct HandlerModel {
    pub anchor: Anchor,
    pub binding: BindingModel,
}

impl View for AnchorHandler {
    type V = HandlerModel;

    open spec fn view(&self) -> HandlerModel {
        HandlerModel { anchor: self.anchor, binding: self.binding@ }
    }
}

/// The failure of a bind operation.
#[derive(Clone, Copy, Debug, PartialEq, Eq, Structural)]
pub enum AnchorError {
    /// The widget is not attached to a parent, so there is no reference
    /// frame to capture.
    NoParent,
}

/// A widget together with its anchor state.
pub struct AnchoredWidget {
    geom: Geometry,
    parent: Option<ParentSize>,
    handlers: Vec<AnchorHandler>,
}

/// The mathematical model of a widget: its geometry, its parent size when
/// attached, and its handlers in registration order.
pub ghost struct WidgetModel {
    pub geom: GeomModel,
    pub parent: Option<(int, int)>,
    pub handlers: Seq<HandlerModel>,
}

impl View for AnchoredWidget {
    type V = WidgetModel;

    closed spec fn view(&self) -> WidgetModel {
        WidgetModel {
            geom: self.geom@,
            parent: match self.parent {
                Some(p) => Some((p.w as int, p.h as int)),
                None => None,
            },
            handlers: self.handlers@.map_values(|h: AnchorHandler| h@),
        }
    }
}

/// The geometry after every handler of `hs` has fired once, in order,
/// under a parent of size `(p_w, p_h)`.
pub open spec fn dispatch_model(
    hs: Seq<HandlerModel>,
    cur: GeomModel,
    p_w: int,
    p_h: int,
) -> GeomModel
    decreases hs.len(),
{
    if hs.len() == 0 {
        cur
    } else {
        dispatch_model(
            hs.drop_first(),
            resize_model(hs[0].anchor, hs[0].binding, cur, p_w, p_h),
            p_w,
            p_h,
        )
    }
}

/// Whether every intermediate geometry of the dispatch fits in machine
/// coordinates.
pub open spec fn dispatch_fits(
    hs: Seq<HandlerModel>,
    cur: GeomModel,
    p_w: int,
    p_h: int,
) -> bool
    decreases hs.len(),
{
    hs.len() == 0 || {
        let next = resize_model(hs[0].anchor, hs[0].binding, cur, p_w, p_h);
        geom_fits_i32(next) && dispatch_fits(hs.drop_first(), next, p_w, p_h)
    }
}

/// Anchoring, as the host application sees it: bind an anchor flag set to
/// a widget, either imperatively or fluently.
pub trait Anchored: Sized {
    /// Captures the widget's current reference frame and registers one
    /// more resize handler for `anchor`. Fails exactly when the widget has
    /// no parent. Each call installs one further handler; binding twice
    /// leaves two, and both fire on every resize event.
    fn set_anchor(&mut self, anchor: Anchor) -> Result<(), AnchorError>;

    /// The fluent variant of `set_anchor`: installs the same handler and
    /// returns the widget for chaining. A widget without a parent is
    /// returned unchanged.
    fn with_anchor(self, anchor: Anchor) -> Self;
}

impl AnchoredWidget {
    /// A widget with geometry `geom`, attached to a parent of size
    /// `(p_w, p_h)`, with no anchor bound yet.
    pub fn new(geom: Geometry, p_w: i32, p_h: i32) -> (r: AnchoredWidget)
        ensures
            r@.geom == geom@,
            r@.parent == Some((p_w as int, p_h as int)),
            r@.handlers == Seq::<HandlerModel>::empty(),
    {
        let r = AnchoredWidget {
            geom,
            parent: Some(ParentSize { w: p_w, h: p_h }),
            handlers: Vec::new(),
        };
        proof {
            assert(r@.handlers =~= Seq::<HandlerModel>::empty());
        }
        r
    }

    /// A widget with geometry `geom` that is not attached to any parent.
    pub fn detached(geom: Geometry) -> (r: AnchoredWidget)
        ensures
            r@.geom == geom@,
            r@.parent is None,
            r@.handlers == Seq::<HandlerModel>::empty(),
    {
        let r = AnchoredWidget { geom, parent: None, handlers: Vec::new() };
        proof {
            assert(r@.handlers =~= Seq::<HandlerModel>::empty());
        }
        r
    }

    /// The widget's current geometry.
    pub fn geometry(&self) -> (r: Geometry)
        ensures
            r@ == self@.geom,
    {
        self.geom
    }

    /// Whether the widget is attached to a parent.
    pub fn is_attached(&self) -> (r: bool)
        ensures
            r == (self@.parent is Some),
    {
        self.parent.is_some()
    }

    /// How many anchor handlers are registered on the widget.
    pub fn handler_count(&self) -> (r: usize)
        ensures
            r as int == self@.handlers.len(),
    {
        self.handlers.len()
    }

    /// Delivers one resize event: records the parent's new size, then
    /// fires every registered handler in registration order, each applying
    /// its decision-table row to the geometry the previous one left.
    pub fn resize_parent(&mut self, new_w: i32, new_h: i32)
        requires
            old(self)@.parent is Some,
            dispatch_fits(old(self)@.handlers, old(self)@.geom, new_w as int, new_h as int),
        ensures
            final(self)@.parent == Some((new_w as int, new_h as int)),
            final(self)@.handlers == old(self)@.handlers,
            final(self)@.geom == dispatch_model(
                old(self)@.handlers,
                old(self)@.geom,
                new_w as int,
                new_h as int,
            ),
    {
        self.parent = Some(ParentSize { w: new_w, h: new_h });
        let ghost hs = self@.handlers;
        let ghost g0 = self.geom@;
        proof {
            assert(hs.skip(0) =~= hs);
        }
        let mut i: usize = 0;
        while i < self.handlers.len()
            invariant
                i <= self.handlers.len(),
                self.handlers == old(self).handlers,
                self.parent == Some(ParentSize { w: new_w, h: new_h }),
                hs == self@.handlers,
                dispatch_model(hs.skip(i as int), self.geom@, new_w as int, new_h as int)
                    == dispatch_model(hs, g0, new_w as int, new_h as int),
                dispatch_fits(hs.skip(i as int), self.geom@, new_w as int, new_h as int),
            decreases self.handlers.len() - i,
        {
            let h = self.handlers[i];
            proof {
                assert(hs.skip(i as int)[0] == hs[i as int]);
                assert(hs.skip(i as int).drop_first() =~= hs.skip(i as int + 1));
            }
            self.geom = resized_geometry(h.anchor, &h.binding, self.geom, new_w, new_h);
            i += 1;
        }
        proof {
            assert(hs.skip(i as int) =~= Seq::<HandlerModel>::empty());
        }
    }
}

impl Anchored for AnchoredWidget {
    fn set_anchor(&mut self, anchor: Anchor) -> (r: Result<(), AnchorError>)
        ensures
            final(self)@.geom == old(self)@.geom,
            final(self)@.parent == old(self)@.parent,
            match old(self)@.parent {
                Some(p) => r is Ok && final(self)@.handlers == old(self)@.handlers.push(
                    HandlerModel {
                        anchor,
                        binding: capture_model(old(self)@.geom, p.0, p.1),
                    },
                ),
                None => r == Result::<(), AnchorError>::Err(AnchorError::NoParent)
                    && final(self)@.handlers == old(self)@.handlers,
            },
    {
        match self.parent {
            Some(p) => {
                let b = AnchorBinding::capture(self.geom, p.w, p.h);
                self.handlers.push(AnchorHandler { anchor, binding: b });
                proof {
                    assert(self@.handlers =~= old(self)@.handlers.push(
                        HandlerModel {
                            anchor,
                            binding: capture_model(old(self)@.geom, p.w as int, p.h as int),
                        },
                    ));
                }
                Ok(())
            }
            None => Err(AnchorError::NoParent),
        }
    }

    fn with_anchor(self, anchor: Anchor) -> (r: Self)
        ensures
            r@.geom == self@.geom,
            r@.parent == self@.parent,
            match self@.parent {
                Some(p) => r@.handlers == self@.handlers.push(
                    HandlerModel {
                        anchor,
                        binding: capture_model(self@.geom, p.0, p.1),
                    },
                ),
                None => r@.handlers == self@.handlers,
            },
    {
        let mut s = self;
        let _ = s.set_anchor(anchor);
        s
    }
}

} // verus!
