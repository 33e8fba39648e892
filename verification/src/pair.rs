//! The key-value pairing capability: a single view of "something with a
//! left and a right side", used by the aggregate builder's bulk operations.

use crate::render::Render;
use vstd::prelude::*;

verus! {

/// A displayable key-value pair, as it appears in a `left: right` entry.
/// Implemented for tuples and for references to tuples; any other pairing
/// type may implement it as well.
pub trait DisplayPair {
    /// Type of the left side of the `left: right` construction.
    type Left: Render;

    /// Type of the right side of the `left: right` construction.
    type Right: Render;

    /// The left-side value.
    spec fn left_spec(&self) -> Self::Left;

    /// The right-side value.
    spec fn right_spec(&self) -> Self::Right;

    /// Returns a reference onto the left-side value.
    fn left(&self) -> (r: &Self::Left)
        ensures
            *r == self.left_spec(),
    ;

    /// Returns a reference onto the right-side value.
    fn rifgt(&self) -> (r: &Self::Right)
        ensures
            *r == self.right_spec(),
    ;
}

impl<L: Render, R: Render> DisplayPair for (L, R) {
    type Left = L;

    type Right = R;

    open spec fn left_spec(&self) -> L {
        self.0
    }

    open spec fn right_spec(&self) -> R {
        self.1
    }

    fn left(&self) -> (r: &L) {
        &self.0
    }

    fn rifgt(&self) -> (r: &R) {
        &self.1
    }
}

impl<'p, L: Render, R: Render> DisplayPair for &'p (L, R) {
    type Left = L;

    type Right = R;

    open spec fn left_spec(&self) -> L {
        self.0
    }

    open spec fn right_spec(&self) -> R {
        self.1
    }

    fn left(&self) -> (r: &L) {
        &self.0
    }

    fn rifgt(&self) -> (r: &R) {
        &self.1
    }
}

} // verus!
