//! Flow contexts: the rows and columns that shapes are laid out in.

use vstd::prelude::*;
use crate::units::{clamp, larger};

verus! {

/// A row or a column that is being filled. It remembers where it began and how
/// far the shapes drawn in it have reached across its direction of flow.
#[derive(Copy, Clone, Debug, PartialEq, Eq, Structural)]
pub enum Layout {
    /// Shapes follow one another to the right; `height` is the tallest so far.
    Row { height: i32, x: i32, y: i32 },
    /// Shapes follow one another downwards; `width` is the widest so far.
    Col { width: i32, x: i32, y: i32 },
}

impl Layout {
    /// The context after a shape of the given extent has been drawn in it.
    pub open spec fn grown(self, width: i32, height: i32) -> Layout {
        match self {
            Layout::Row { height: tallest, x, y } => Layout::Row {
                height: larger(tallest, height),
                x,
                y,
            },
            Layout::Col { width: widest, x, y } => Layout::Col {
                width: larger(widest, width),
                x,
                y,
            },
        }
    }

    /// Where the cursor stands after something of the given extent has been
    /// placed at `cursor` in this context: further along the direction of flow.
    pub open spec fn advanced(self, cursor: (i32, i32), width: i32, height: i32) -> (i32, i32) {
        match self {
            Layout::Row { .. } => (clamp(cursor.0 + width), cursor.1),
            Layout::Col { .. } => (cursor.0, clamp(cursor.1 + height)),
        }
    }

    /// Where the cursor stands once the context is closed: a row hands back its
    /// starting x and moves down by its height, a column hands back its
    /// starting y and moves right by its width.
    pub open spec fn folded(self) -> (i32, i32) {
        match self {
            Layout::Row { height, x, y } => (x, clamp(y + height)),
            Layout::Col { width, x, y } => (clamp(x + width), y),
        }
    }
}

} // verus!
