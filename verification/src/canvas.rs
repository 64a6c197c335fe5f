//! The canvas: the whole screen's composition geometry.
//!
//! The canvas owns no per-tick algorithm; columns animate independently.
//! Its state is one placeholder entry per display-width unit, which the
//! host runtime uses to lay the columns out side by side.

use vstd::prelude::*;

verus! {

/// The canvas state: one entry per display-width unit, fixed for the
/// session.
pub struct CanvasState {
    pub columns: Vec<usize>,
}

impl CanvasState {
    /// A canvas `width` units wide: its entries are the column positions
    /// `0, 1, ..., width - 1`, in order.
    pub fn new(width: usize) -> (s: CanvasState)
        ensures
            s.columns@.len() == width,
            forall|i: int| 0 <= i < width ==> s.columns@[i] == i,
    {
        let mut columns: Vec<usize> = Vec::new();
        let mut k: usize = 0;
        while k < width
            invariant
                k <= width,
                columns@.len() == k,
                forall|i: int| 0 <= i < k ==> columns@[i] == i,
            decreases width - k,
        {
            columns.push(k);
            k += 1;
        }
        CanvasState { columns }
    }
}

/// The marker for the canvas rendered by the host runtime; the geometry it
/// lays out lives in [`CanvasState`].
pub struct Canvas {}

impl Canvas {
    /// A new canvas marker.
    pub fn new() -> (c: Canvas)
        ensures
            c == (Canvas {}),
    {
        Canvas {}
    }
}

} // verus!
