//! Commands recorded for the drawing backend.

use vstd::prelude::*;
use crate::color::Color;

verus! {

/// An axis-aligned rectangle in layout units, given by its top-left corner and
/// its extent.
#[derive(Copy, Clone, Debug, PartialEq, Eq, Structural)]
pub struct Rect {
    pub x: i32,
    pub y: i32,
    pub width: i32,
    pub height: i32,
}

/// One request to the drawing backend. A frame's commands are replayed in the
/// order in which they were recorded.
#[derive(Copy, Clone, Debug, PartialEq, Eq, Structural)]
pub enum DrawCommand {
    /// Fill the whole frame with a colour.
    Clear { color: Color },
    /// Fill a rectangle with a colour.
    Quad { rect: Rect, color: Color },
    /// Cover a rectangle with the texture registered under `texture`.
    TexturedQuad { rect: Rect, texture: u32 },
    /// Paint the glyph of `c` into a rectangle.
    Glyph { c: char, rect: Rect, color: Color },
}

/// The command that paints the glyph of `c` into `rect`.
pub open spec fn glyph(c: char, rect: Rect, color: Color) -> DrawCommand {
    DrawCommand::Glyph { c, rect, color }
}

/// What is known of a texture that the backend holds.
#[derive(Copy, Clone, Debug, PartialEq, Eq, Structural)]
pub enum Texture {
    /// A decoded image of the given size in pixels.
    Image { width: u32, height: u32 },
}

} // verus!
