//! Declarative edge anchoring for widgets of a retained-mode GUI toolkit.
//!
//! A widget can be told which edges of its parent it should stay fixed
//! relative to when the parent is resized. The crate captures the widget's
//! original geometry and the parent's original size as an immutable
//! reference frame, and on every resize event recomputes the widget's
//! geometry from that frame, the anchor flags, and the parent's current
//! size.

pub mod anchor;
pub mod binding;
pub mod engine;
pub mod geometry;
pub mod laws;
pub mod widget;

pub use anchor::Anchor;
pub use binding::AnchorBinding;
pub use engine::{checked_resized_geometry, resized_geometry};
pub use geometry::Geometry;
pub use widget::{AnchorError, Anchored, AnchoredWidget};
