//! The anchor flag set: which edges of the parent a widget stays fixed to.

use vstd::prelude::*;

verus! {

/// A set of independent edge flags. Each flag that is present means "keep
/// this edge's distance from the corresponding parent edge constant" when
/// the parent is resized. All sixteen subsets of {left, top, right, bottom}
/// are legal; the empty set is a valid anchor as well.
#[derive(Clone, Copy, Debug, PartialEq, Eq, Structural)]
pub struct Anchor {
    pub left: bool,
    pub top: bool,
    pub right: bool,
    pub bottom: bool,
}

impl Anchor {
    /// The empty flag set: no edge is anchored.
    pub fn none() -> (r: Anchor)
        ensures
            r == (Anchor { left: false, top: false, right: false, bottom: false }),
    {
        Anchor { left: false, top: false, right: false, bottom: false }
    }

    /// The flag set containing only the left edge.
    pub fn left() -> (r: Anchor)
        ensures
            r == (Anchor { left: true, top: false, right: false, bottom: false }),
    {
        Anchor { left: true, top: false, right: false, bottom: false }
    }

    /// The flag set containing only the top edge.
    pub fn top() -> (r: Anchor)
        ensures
            r == (Anchor { left: false, top: true, right: false, bottom: false }),
    {
        Anchor { left: false, top: true, right: false, bottom: false }
    }

    /// The flag set containing only the right edge.
    pub fn right() -> (r: Anchor)
        ensures
            r == (Anchor { left: false, top: false, right: true, bottom: false }),
    {
        Anchor { left: false, top: false, right: true, bottom: false }
    }

    /// The flag set containing only the bottom edge.
    pub fn bottom() -> (r: Anchor)
        ensures
            r == (Anchor { left: false, top: false, right: false, bottom: true }),
    {
        Anchor { left: false, top: false, right: false, bottom: true }
    }

    /// The union of two flag sets: an edge is anchored in the result exactly
    /// when it is anchored in either operand.
    pub fn or(self, other: Anchor) -> (r: Anchor)
        ensures
            r == (Anchor {
                left: self.left || other.left,
                top: self.top || other.top,
                right: self.right || other.right,
                bottom: self.bottom || other.bottom,
            }),
    {
        Anchor {
            left: self.left || other.left,
            top: self.top || other.top,
            right: self.right || other.right,
            bottom: self.bottom || other.bottom,
        }
    }
}

} // verus!
