//! What the pointer and the keyboard have reported.

use vstd::prelude::*;

verus! {

/// Where the pointer is, in layout units, and whether a button was released
/// since the last frame began.
#[derive(Copy, Clone, Debug, PartialEq, Eq, Structural)]
pub struct MouseInfo {
    pub x: i32,
    pub y: i32,
    pub lmouseclick: bool,
    pub rmouseclick: bool,
}

/// Which modifier keys are held down.
#[derive(Copy, Clone, Debug, PartialEq, Eq, Structural)]
pub struct Modifiers {
    pub shift: bool,
    pub ctrl: bool,
    pub alt: bool,
    pub logo: bool,
}

} // verus!
