//! Padding around the content of a widget.

use vstd::prelude::*;
use vstd::std_specs::convert::FromSpecImpl;

verus! {

/// Room left free on each side of a widget's content, in layout units.
#[derive(Copy, Clone, Debug, PartialEq, Eq, Structural)]
pub struct Padding {
    pub left: i32,
    pub right: i32,
    pub top: i32,
    pub bottom: i32,
}

/// The same padding on all four sides.
impl From<i32> for Padding {
    fn from(all: i32) -> (padding: Padding) {
        Padding { left: all, right: all, bottom: all, top: all }
    }
}

impl FromSpecImpl<i32> for Padding {
    open spec fn obeys_from_spec() -> bool {
        true
    }

    open spec fn from_spec(all: i32) -> Padding {
        Padding { left: all, right: all, bottom: all, top: all }
    }
}

/// Horizontal padding, then vertical padding.
impl From<(i32, i32)> for Padding {
    fn from(sides: (i32, i32)) -> (padding: Padding) {
        Padding { left: sides.0, right: sides.0, bottom: sides.1, top: sides.1 }
    }
}

impl FromSpecImpl<(i32, i32)> for Padding {
    open spec fn obeys_from_spec() -> bool {
        true
    }

    open spec fn from_spec(sides: (i32, i32)) -> Padding {
        Padding { left: sides.0, right: sides.0, bottom: sides.1, top: sides.1 }
    }
}

/// Left, top, right and bottom padding, in that order.
impl From<(i32, i32, i32, i32)> for Padding {
    fn from(sides: (i32, i32, i32, i32)) -> (padding: Padding) {
        Padding { left: sides.0, top: sides.1, right: sides.2, bottom: sides.3 }
    }
}

impl FromSpecImpl<(i32, i32, i32, i32)> for Padding {
    open spec fn obeys_from_spec() -> bool {
        true
    }

    open spec fn from_spec(sides: (i32, i32, i32, i32)) -> Padding {
        Padding { left: sides.0, top: sides.1, right: sides.2, bottom: sides.3 }
    }
}

} // verus!
