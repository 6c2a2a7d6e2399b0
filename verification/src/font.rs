//! Glyph metrics of a rasterised font, and the geometry of a run of text.

use vstd::prelude::*;
use std::collections::HashMap;
use crate::draw::Rect;
use crate::units::{clamp, larger, narrow, offset, pixels, grow, UNITS_PER_PIXEL};

verus! {

broadcast use vstd::std_specs::hash::group_hash_axioms;

/// Metrics of one rasterised glyph. `bearing` and `size` count pixels;
/// `advance` counts sixty-fourths of a pixel.
#[derive(Copy, Clone, Debug, PartialEq, Eq)]
pub struct CharacterInfo {
    pub bearing: (i32, i32),
    pub size: (i32, i32),
    pub advance: i32,
}

impl CharacterInfo {
    /// The distance to the next glyph in layout units: the advance cut down to
    /// whole pixels.
    pub open spec fn step(self) -> i32 {
        clamp((self.advance as int / UNITS_PER_PIXEL as int) * UNITS_PER_PIXEL)
    }

    /// The rectangle the glyph covers when the pen stands at `pen_x` on a line
    /// whose top is `y`, in a font of `font_size` pixels.
    pub open spec fn quad(self, font_size: u32, pen_x: i32, y: i32) -> Rect {
        Rect {
            x: clamp(pen_x + clamp(self.bearing.0 * UNITS_PER_PIXEL)),
            y: clamp(
                y + (self.size.1 - self.bearing.1) * UNITS_PER_PIXEL + (font_size - self.size.1)
                    * UNITS_PER_PIXEL,
            ),
            width: clamp(self.size.0 * UNITS_PER_PIXEL),
            height: clamp(self.size.1 * UNITS_PER_PIXEL),
        }
    }

    /// How far below the line's top the glyph's rectangle ends.
    pub open spec fn reach(self, font_size: u32, y: i32) -> i32 {
        let quad = self.quad(font_size, 0, y);
        clamp(quad.y + quad.height - y)
    }

    pub fn pen_step(&self) -> (r: i32)
        ensures
            r == self.step(),
    {
        let a: i32 = self.advance;
        let whole: i32 = a >> 6;
        assert(whole == a as int / 64) by {
            assert(a >> 6 == a / 64) by (bit_vector);
        }
        narrow(whole as i64 * 64)
    }

    pub fn glyph_quad(&self, font_size: u32, pen_x: i32, y: i32) -> (r: Rect)
        ensures
            r == self.quad(font_size, pen_x, y),
    {
        let x: i32 = offset(pen_x, pixels(self.bearing.0));
        let below: i64 = (self.size.1 as i64 - self.bearing.1 as i64) * 64;
        let above: i64 = (font_size as i64 - self.size.1 as i64) * 64;
        let top: i32 = narrow(y as i64 + below + above);
        Rect { x, y: top, width: pixels(self.size.0), height: pixels(self.size.1) }
    }

    pub fn glyph_reach(&self, font_size: u32, y: i32) -> (r: i32)
        ensures
            r == self.reach(font_size, y),
    {
        let quad = self.glyph_quad(font_size, 0, y);
        narrow(quad.y as i64 + quad.height as i64 - y as i64)
    }
}

/// What a font tells the layout: the metrics of each glyph it holds, by code
/// point, and its nominal size in pixels.
pub ghost struct FontView {
    pub glyphs: Map<u32, CharacterInfo>,
    pub size: u32,
}

impl FontView {
    /// Whether the font holds a glyph for every character of `text`.
    pub open spec fn covers(self, text: Seq<char>) -> bool {
        forall|i: int| 0 <= i < text.len() ==> self.glyphs.contains_key(#[trigger] text[i] as u32)
    }

    pub open spec fn info(self, c: char) -> CharacterInfo {
        self.glyphs[c as u32]
    }

    /// The height of a line of text in layout units.
    pub open spec fn line_height(self) -> i32 {
        clamp(self.size * UNITS_PER_PIXEL)
    }

    /// Where the pen stands after writing `text` from `start_x`: it moves by
    /// each glyph's step in turn.
    pub open spec fn pen_x(self, start_x: i32, text: Seq<char>) -> i32
        decreases text.len(),
    {
        if text.len() == 0 {
            start_x
        } else {
            clamp(self.pen_x(start_x, text.drop_last()) + self.info(text.last()).step())
        }
    }

    /// The width of a run of text: the sum of its glyphs' steps.
    pub open spec fn run_width(self, text: Seq<char>) -> i32 {
        self.pen_x(0, text)
    }

    /// The height of a run of text written on a line whose top is `y`: the
    /// furthest any of its glyphs reaches below `y`, and 0 for no glyphs.
    pub open spec fn run_height(self, y: i32, text: Seq<char>) -> i32
        decreases text.len(),
    {
        if text.len() == 0 {
            0
        } else {
            larger(self.run_height(y, text.drop_last()), self.info(text.last()).reach(self.size, y))
        }
    }
}

/// The glyph metrics of a font rasterised at one size.
pub struct Font {
    character_info: HashMap<u32, CharacterInfo>,
    size: u32,
}

impl View for Font {
    type V = FontView;

    closed spec fn view(&self) -> FontView {
        FontView { glyphs: self.character_info@, size: self.size }
    }
}

impl Font {
    /// A font of the given pixel size that holds no glyph yet.
    pub fn new(font_size: u32) -> (font: Self)
        ensures
            font@ == (FontView { glyphs: Map::empty(), size: font_size }),
    {
        Font { character_info: HashMap::new(), size: font_size }
    }

    /// Files the metrics of the glyph of `c`, replacing any filed before.
    pub fn insert(&mut self, c: char, info: CharacterInfo)
        ensures
            final(self)@ == (FontView {
                glyphs: old(self)@.glyphs.insert(c as u32, info),
                ..old(self)@
            }),
    {
        self.character_info.insert(c as u32, info);
    }

    pub fn get_info(&self, c: char) -> (info: Option<&CharacterInfo>)
        ensures
            match info {
                Some(found) => self@.glyphs.contains_key(c as u32) && *found == self@.info(c),
                None => !self@.glyphs.contains_key(c as u32),
            },
    {
        self.character_info.get(&(c as u32))
    }

    /// The nominal size in pixels.
    pub fn size(&self) -> (s: u32)
        ensures
            s == self@.size,
    {
        self.size
    }

    /// Whether the font holds a glyph for every character of `text`.
    pub fn has_glyphs(&self, text: &str) -> (all: bool)
        ensures
            all == self@.covers(text@),
    {
        for c in it: text.chars()
            invariant
                it.seq() == text@,
                forall|j: int|
                    0 <= j < it.index() ==> self@.glyphs.contains_key(#[trigger] text@[j] as u32),
        {
            if self.get_info(c).is_none() {
                return false;
            }
        }
        true
    }
}

} // verus!
