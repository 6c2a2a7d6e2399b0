//! The state of a renderer as a mathematical value, and what each operation
//! does to it. The contracts of the renderer's methods are stated over this
//! model.

use vstd::prelude::*;
use std::time::Instant;
use crate::animation::{values_at, AnimationView, Transition};
use crate::color::Color;
use crate::draw::{glyph, DrawCommand, Rect, Texture};
use crate::font::FontView;
use crate::hitbox::{first_hit, table_insert, Hitbox};
use crate::input::{Modifiers, MouseInfo};
use crate::key::Key;
use crate::layout::Layout;
use crate::strings::decimal_4;
use crate::units::{clamp, larger, UNITS_PER_PIXEL};

verus! {

/// Everything a renderer knows. The root context is a column that is never
/// closed; `scopes` holds the rows and columns opened inside it, innermost
/// last.
pub ghost struct RendererView {
    /// Where the next shape will be drawn.
    pub cursor: (i32, i32),
    /// The extent of the drawing area, as of the start of the frame.
    pub viewport: (i32, i32),
    pub root: Layout,
    pub scopes: Seq<Layout>,
    /// The hitboxes whose scope is open, innermost last.
    pub open_hitboxes: Seq<Hitbox>,
    /// The hitboxes closed in this frame, in the order they were first filed.
    pub hitboxes: Seq<(u32, Hitbox)>,
    pub hot_id: Option<u32>,
    pub active_id: Option<u32>,
    pub mouse: MouseInfo,
    pub modifiers: Modifiers,
    /// Characters typed since the last frame ended and not yet consumed.
    pub input: Seq<char>,
    /// Keys pressed since the last frame ended and not yet consumed.
    pub keys: Seq<Key>,
    pub background_color: Color,
    pub font: FontView,
    pub textures: Map<u32, Texture>,
    pub animations: Map<u32, AnimationView>,
    /// How long the last frame took, in nanoseconds; 0 before the first one.
    pub frame_time: u32,
    /// The clock reading at which the current frame started.
    pub frame_start: Instant,
    /// What the backend has been asked to draw and has not yet taken.
    pub commands: Seq<DrawCommand>,
}

/// The hitbox after a shape of the given extent has been drawn in its scope.
pub open spec fn hitbox_grown(hitbox: Hitbox, width: i32, height: i32) -> Hitbox {
    Hitbox {
        width: larger(hitbox.width, width),
        height: larger(hitbox.height, height),
        ..hitbox
    }
}

impl RendererView {
    /// A renderer made at the clock reading `now` that has drawn nothing yet:
    /// the cursor at the origin of an empty viewport, an empty root column, a
    /// black background, no widget hot or active, and the given font.
    pub open spec fn initial(font: FontView, now: Instant) -> RendererView {
        RendererView {
            cursor: (0, 0),
            viewport: (0, 0),
            root: Layout::Col { width: 0, x: 0, y: 0 },
            scopes: Seq::empty(),
            open_hitboxes: Seq::empty(),
            hitboxes: Seq::empty(),
            hot_id: None,
            active_id: None,
            mouse: MouseInfo { x: 0, y: 0, lmouseclick: false, rmouseclick: false },
            modifiers: Modifiers { shift: false, ctrl: false, alt: false, logo: false },
            input: Seq::empty(),
            keys: Seq::empty(),
            background_color: Color { r: 0, g: 0, b: 0 },
            font,
            textures: Map::empty(),
            animations: Map::empty(),
            frame_time: 0,
            frame_start: now,
            commands: Seq::empty(),
        }
    }

    /// The context that shapes are currently laid out in.
    pub open spec fn top(self) -> Layout {
        if self.scopes.len() > 0 {
            self.scopes.last()
        } else {
            self.root
        }
    }

    /// The state with the current context replaced.
    pub open spec fn with_top(self, top: Layout) -> RendererView {
        if self.scopes.len() > 0 {
            RendererView { scopes: self.scopes.update(self.scopes.len() - 1, top), ..self }
        } else {
            RendererView { root: top, ..self }
        }
    }

    pub open spec fn with_cursor(self, cursor: (i32, i32)) -> RendererView {
        RendererView { cursor, ..self }
    }

    /// A gap of `size` along the direction of flow.
    pub open spec fn space(self, size: i32) -> RendererView {
        self.with_cursor(self.top().advanced(self.cursor, size, size))
    }

    /// A shape of the given extent has been drawn at the cursor: the cursor
    /// moves on, the current context and the innermost open hitbox grow.
    pub open spec fn shape(self, width: i32, height: i32) -> RendererView {
        let moved = self.with_cursor(self.top().advanced(self.cursor, width, height)).with_top(
            self.top().grown(width, height),
        );
        if self.open_hitboxes.len() > 0 {
            RendererView {
                open_hitboxes: self.open_hitboxes.update(
                    self.open_hitboxes.len() - 1,
                    hitbox_grown(self.open_hitboxes.last(), width, height),
                ),
                ..moved
            }
        } else {
            moved
        }
    }

    pub open spec fn open_row(self) -> RendererView {
        RendererView {
            scopes: self.scopes.push(Layout::Row { height: 0, x: self.cursor.0, y: self.cursor.1 }),
            ..self
        }
    }

    pub open spec fn open_col(self) -> RendererView {
        RendererView {
            scopes: self.scopes.push(Layout::Col { width: 0, x: self.cursor.0, y: self.cursor.1 }),
            ..self
        }
    }

    /// Closes the innermost context. A row hands its folded position to the
    /// cursor; the root context is never closed.
    pub open spec fn close_row(self) -> RendererView {
        if self.scopes.len() == 0 {
            self
        } else {
            let closed = RendererView { scopes: self.scopes.drop_last(), ..self };
            if self.scopes.last() is Row {
                closed.with_cursor(self.scopes.last().folded())
            } else {
                closed
            }
        }
    }

    /// Closes the innermost context. A column hands its folded position to the
    /// cursor; the root context is never closed.
    pub open spec fn close_col(self) -> RendererView {
        if self.scopes.len() == 0 {
            self
        } else {
            let closed = RendererView { scopes: self.scopes.drop_last(), ..self };
            if self.scopes.last() is Col {
                closed.with_cursor(self.scopes.last().folded())
            } else {
                closed
            }
        }
    }

    /// Opens a hitbox of no extent at the cursor.
    pub open spec fn open_hitbox(self) -> RendererView {
        RendererView {
            open_hitboxes: self.open_hitboxes.push(
                Hitbox { x: self.cursor.0, y: self.cursor.1, width: 0, height: 0 },
            ),
            ..self
        }
    }

    /// Closes the innermost open hitbox and files it under `id`.
    pub open spec fn close_hitbox(self, id: u32) -> RendererView {
        if self.open_hitboxes.len() == 0 {
            self
        } else {
            RendererView {
                open_hitboxes: self.open_hitboxes.drop_last(),
                hitboxes: table_insert(self.hitboxes, id, self.open_hitboxes.last()),
                ..self
            }
        }
    }

    /// The cursor placed at `(x, y)`; a negative coordinate counts back from
    /// the far edge of the viewport.
    pub open spec fn placed(self, x: i32, y: i32) -> RendererView {
        self.with_cursor(
            (
                if x < 0 {
                    clamp(self.viewport.0 + x)
                } else {
                    x
                },
                if y < 0 {
                    clamp(self.viewport.1 + y)
                } else {
                    y
                },
            ),
        )
    }

    /// The cursor moved by `(x, y)`.
    pub open spec fn moved(self, x: i32, y: i32) -> RendererView {
        self.with_cursor((clamp(self.cursor.0 + x), clamp(self.cursor.1 + y)))
    }

    /// One more command for the backend.
    pub open spec fn emit(self, command: DrawCommand) -> RendererView {
        RendererView { commands: self.commands.push(command), ..self }
    }

    /// The rectangle of the given extent at the cursor.
    pub open spec fn rect_here(self, width: i32, height: i32) -> Rect {
        Rect { x: self.cursor.0, y: self.cursor.1, width, height }
    }

    pub open spec fn clear(self) -> RendererView {
        self.emit(DrawCommand::Clear { color: self.background_color })
    }

    pub open spec fn rectangle(self, size: (i32, i32), color: Color) -> RendererView {
        self.emit(DrawCommand::Quad { rect: self.rect_here(size.0, size.1), color }).shape(
            size.0,
            size.1,
        )
    }

    pub open spec fn texture(self, id: u32, size: (i32, i32)) -> RendererView {
        self.emit(
            DrawCommand::TexturedQuad { rect: self.rect_here(size.0, size.1), texture: id },
        ).shape(size.0, size.1)
    }

    /// The glyph commands of a run of text written from the cursor: those of
    /// the run without its last character, then the last glyph where the pen
    /// has arrived.
    pub open spec fn text_commands(self, value: Seq<char>, color: Color) -> Seq<DrawCommand>
        decreases value.len(),
    {
        if value.len() == 0 {
            Seq::empty()
        } else {
            self.text_commands(value.drop_last(), color).push(
                glyph(
                    value.last(),
                    self.font.info(value.last()).quad(
                        self.font.size,
                        self.font.pen_x(self.cursor.0, value.drop_last()),
                        self.cursor.1,
                    ),
                    color,
                ),
            )
        }
    }

    /// A run of text written from the cursor: one command per glyph, then one
    /// shape of the run's extent.
    pub open spec fn text(self, value: Seq<char>, color: Color) -> RendererView {
        RendererView { commands: self.commands + self.text_commands(value, color), ..self }.shape(
            self.font.run_width(value),
            self.font.run_height(self.cursor.1, value),
        )
    }

    /// The animation filed under `id`, or, where none is filed, a fresh one of
    /// the given duration and transitions that starts at the clock reading
    /// `now`.
    pub open spec fn animation_or(
        self,
        id: u32,
        duration_ms: u64,
        transitions: Seq<Transition>,
        now: Instant,
    ) -> AnimationView {
        if self.animations.contains_key(id) {
            self.animations[id]
        } else {
            AnimationView::fresh(now, duration_ms, transitions)
        }
    }

    /// The values that the animation filed under `id` (or a fresh one) reports
    /// when `elapsed_ms` have passed since it started.
    pub open spec fn animation_values(
        self,
        id: u32,
        duration_ms: u64,
        transitions: Seq<Transition>,
        elapsed_ms: u64,
    ) -> Seq<i32> {
        if self.animations.contains_key(id) {
            self.animations[id].values(elapsed_ms)
        } else {
            values_at(transitions, elapsed_ms, duration_ms)
        }
    }

    /// The state after the animation filed under `id` has been asked for its
    /// values: it keeps its start reading, duration and transitions, and no
    /// other animation is touched. Where none is filed, a fresh one that
    /// starts at `now` is asked and then filed.
    pub open spec fn animated(
        self,
        id: u32,
        duration_ms: u64,
        transitions: Seq<Transition>,
        now: Instant,
        elapsed_ms: u64,
    ) -> RendererView {
        RendererView {
            animations: self.animations.insert(
                id,
                self.animation_or(id, duration_ms, transitions, now).advance(elapsed_ms),
            ),
            ..self
        }
    }

    /// The animation filed under `id` starts again at the clock reading
    /// `now`; nothing changes where none is filed.
    pub open spec fn reset_animation(self, id: u32, now: Instant) -> RendererView {
        if self.animations.contains_key(id) {
            RendererView {
                animations: self.animations.insert(id, self.animations[id].restarted(now)),
                ..self
            }
        } else {
            self
        }
    }

    /// The frame-rate readout: the rate in at least four characters, then
    /// `" fps"`.
    pub open spec fn fps_label(self) -> Seq<char> {
        decimal_4(self.fps()) + seq![' ', 'f', 'p', 's']
    }

    /// The frame-rate readout written in black eighty pixels from the right
    /// edge of the viewport, at its top, with the cursor left where it was.
    pub open spec fn show_fps(self) -> RendererView {
        self.placed(clamp(-80 * UNITS_PER_PIXEL), 0).text(
            self.fps_label(),
            Color { r: 0, g: 0, b: 0 },
        ).with_cursor(self.cursor)
    }

    /// A fresh frame that starts at the clock reading `now`: the cursor
    /// returns to the origin and the viewport is refreshed.
    pub open spec fn next_frame(self, viewport: (i32, i32), now: Instant) -> RendererView {
        RendererView { cursor: (0, 0), viewport, frame_start: now, ..self }
    }

    /// The start of a frame at the clock reading `now`: the cursor returns to
    /// the origin, the viewport is refreshed, the hot widget is looked up in
    /// the hitboxes of the frame before at the pointer's position, the click
    /// flags and the hitbox table are cleared.
    pub open spec fn begin_frame(self, viewport: (i32, i32), now: Instant) -> RendererView {
        RendererView {
            cursor: (0, 0),
            viewport,
            frame_start: now,
            hot_id: first_hit(self.hitboxes, self.mouse.x, self.mouse.y),
            mouse: MouseInfo { lmouseclick: false, rmouseclick: false, ..self.mouse },
            hitboxes: Seq::empty(),
            ..self
        }
    }

    /// The end of a frame that took `nanos` nanoseconds: the duration is
    /// recorded in 32 bits and the input queue is emptied.
    pub open spec fn end_frame(self, nanos: u128) -> RendererView {
        RendererView {
            frame_time: (nanos % 0x1_0000_0000) as u32,
            input: Seq::empty(),
            keys: Seq::empty(),
            ..self
        }
    }

    /// Frames per second by the duration of the last frame; 0 before the first.
    pub open spec fn fps(self) -> u32 {
        if self.frame_time == 0 {
            0
        } else {
            (1_000_000_000int / self.frame_time as int) as u32
        }
    }
}

} // verus!
