//! Labels: a run of text on a padded background.

use vstd::prelude::*;
use vstd::std_specs::convert::{FromSpecImpl, IntoSpec};
use crate::color::Color;
use crate::model::RendererView;
use crate::padding::Padding;
use crate::renderer::Renderer;
use crate::units::{clamp, grow, larger, narrow, offset, UNITS_PER_PIXEL};

verus! {

/// How a label looks.
#[derive(Copy, Clone, Debug, PartialEq, Eq)]
pub struct LabelStyle {
    /// The colour behind the text; the renderer's background where `None`.
    pub background_color: Option<Color>,
    pub foreground_color: Color,
    pub padding: Padding,
    /// The least width of the text's room, padding not counted.
    pub min_width: i32,
}

impl LabelStyle {
    /// Black text on the renderer's background, no padding, no least width.
    pub open spec fn plain() -> LabelStyle {
        LabelStyle {
            background_color: None,
            foreground_color: Color::spec_black(),
            padding: Padding { left: 0, right: 0, top: 0, bottom: 0 },
            min_width: 0,
        }
    }
}

impl Default for LabelStyle {
    fn default() -> (style: Self)
        ensures
            style == LabelStyle::plain(),
    {
        Self {
            background_color: None,
            foreground_color: Color::black(),
            padding: Padding { left: 0, right: 0, top: 0, bottom: 0 },
            min_width: 0,
        }
    }
}

/// The unit value stands for the plain style.
impl From<()> for LabelStyle {
    fn from(unit: ()) -> (style: LabelStyle) {
        Default::default()
    }
}

impl FromSpecImpl<()> for LabelStyle {
    open spec fn obeys_from_spec() -> bool {
        true
    }

    open spec fn from_spec(unit: ()) -> LabelStyle {
        LabelStyle::plain()
    }
}

/// What is taken off a label's height so that the text sits in the middle of
/// its background: three pixels.
pub const HEIGHT_TRIM: i32 = 192;

/// How far a label's text is raised above the padded top: four pixels.
pub const TEXT_RAISE: i32 = 256;

impl RendererView {
    /// The extent of a label's background: the text's width, or the least
    /// width where that is more, plus the horizontal padding; the line height
    /// plus the vertical padding, less the trim.
    pub open spec fn label_extent(self, text: Seq<char>, style: LabelStyle) -> (i32, i32) {
        (
            clamp(
                larger(self.font.run_width(text), style.min_width) + style.padding.left
                    + style.padding.right,
            ),
            clamp(self.font.line_height() + style.padding.top + style.padding.bottom - HEIGHT_TRIM),
        )
    }

    /// Where a label's text begins: right of the cursor by the left padding,
    /// below it by the top padding less the raise.
    pub open spec fn label_text_origin(self, style: LabelStyle) -> (i32, i32) {
        (clamp(self.cursor.0 + style.padding.left), clamp(self.cursor.1 + style.padding.top - TEXT_RAISE))
    }

    /// The x at which a label's text ends.
    pub open spec fn label_text_end(self, text: Seq<char>, style: LabelStyle) -> i32 {
        clamp(self.label_text_origin(style).0 + self.font.run_width(text))
    }

    /// A label at the cursor: its background as one rectangle, which moves
    /// the cursor on, then its text, written from the text origin with the
    /// cursor put back afterwards.
    pub open spec fn label(self, text: Seq<char>, style: LabelStyle) -> RendererView {
        let background = match style.background_color {
            Some(color) => color,
            None => self.background_color,
        };
        let origin = self.label_text_origin(style);
        let boxed = self.rectangle(self.label_extent(text, style), background);
        boxed.placed(origin.0, origin.1).text(text, style.foreground_color).with_cursor(boxed.cursor)
    }
}

impl Renderer {
    /// Draws a label at the cursor. Returns the extent of its background and
    /// the x at which its text ends.
    pub fn label<T: Into<LabelStyle>>(&mut self, text: &str, style: T) -> (extent: (i32, i32, i32))
        requires
            old(self)@.font.covers(text@),
        ensures
            T::obeys_into_spec() ==> final(self)@ == old(self)@.label(text@, style.into_spec()),
            T::obeys_into_spec() ==> extent == (
                old(self)@.label_extent(text@, style.into_spec()).0,
                old(self)@.label_extent(text@, style.into_spec()).1,
                old(self)@.label_text_end(text@, style.into_spec()),
            ),
    {
        self.label_styled(text, style.into())
    }

    /// Draws a label in the given style at the cursor. Returns the extent of
    /// its background and the x at which its text ends.
    pub fn label_styled(&mut self, text: &str, style: LabelStyle) -> (extent: (i32, i32, i32))
        requires
            old(self)@.font.covers(text@),
        ensures
            final(self)@ == old(self)@.label(text@, style),
            extent == (
                old(self)@.label_extent(text@, style).0,
                old(self)@.label_extent(text@, style).1,
                old(self)@.label_text_end(text@, style),
            ),
    {
        let (x, y) = self.pos();
        let (width, height) = self.calculate_text_size(text);
        let rect_width: i32 = narrow(
            grow(width, style.min_width) as i64 + style.padding.left as i64
                + style.padding.right as i64,
        );
        let rect_height: i32 = narrow(
            height as i64 + style.padding.top as i64 + style.padding.bottom as i64 - HEIGHT_TRIM as i64,
        );
        let text_x: i32 = offset(x, style.padding.left);
        let text_y: i32 = narrow(y as i64 + style.padding.top as i64 - TEXT_RAISE as i64);
        let background: Color = match style.background_color {
            Some(color) => color,
            None => self.background_color(),
        };
        self.rectangle((rect_width, rect_height), background);
        let before = self.place_cursor(text_x, text_y);
        self.text(text, style.foreground_color);
        self.restore_cursor(before);
        (rect_width, rect_height, offset(text_x, width))
    }
}

} // verus!
