//! The renderer: the one object an application draws a frame with.

use vstd::prelude::*;
use vstd::slice::slice_to_vec;
use std::collections::HashMap;
use std::time::{Duration, Instant};
use crate::animation::{
    capped, clock_elapsed, clock_now, millis_of, Animation, Transition,
};
use crate::color::Color;
use crate::draw::{glyph, DrawCommand, Rect, Texture};
use crate::font::{CharacterInfo, Font};
use crate::hitbox::{first_hit, table_get, table_insert, Hitbox};
use crate::input::{Modifiers, MouseInfo};
use crate::key::Key;
use crate::layout::Layout;
use crate::model::RendererView;
use crate::strings::push_decimal_4;
use crate::units::{clamp, grow, offset, pixels, pixels_of, retreat};

verus! {

broadcast use vstd::std_specs::hash::group_hash_axioms;

/// The nanoseconds in a span of time, as `std::time::Duration::as_nanos`
/// counts them. Nothing is claimed of the count.
#[verifier::external_body]
fn whole_nanos(span: &Duration) -> u128 {
    span.as_nanos()
}

/// Draws frames: keeps the layout cursor, the hitboxes, the animations and the
/// input queue, and records what the backend is to draw.
pub struct Renderer {
    frame_time: u32,
    frame_start: Instant,
    modifiers: Modifiers,
    font: Font,
    viewport: (i32, i32),
    cursor: (i32, i32),
    background_color: Color,
    root: Layout,
    scopes: Vec<Layout>,
    animations: HashMap<u32, Animation>,
    textures: HashMap<u32, Texture>,
    mouse: MouseInfo,
    input: Vec<char>,
    keys: Vec<Key>,
    active_id: Option<u32>,
    hot_id: Option<u32>,
    hitboxes: Vec<(u32, Hitbox)>,
    hitbox_stack: Vec<Hitbox>,
    commands: Vec<DrawCommand>,
}

impl View for Renderer {
    type V = RendererView;

    closed spec fn view(&self) -> RendererView {
        RendererView {
            cursor: self.cursor,
            viewport: self.viewport,
            root: self.root,
            scopes: self.scopes@,
            open_hitboxes: self.hitbox_stack@,
            hitboxes: self.hitboxes@,
            hot_id: self.hot_id,
            active_id: self.active_id,
            mouse: self.mouse,
            modifiers: self.modifiers,
            input: self.input@,
            keys: self.keys@,
            background_color: self.background_color,
            font: self.font@,
            textures: self.textures@,
            animations: Map::new(
                |id: u32| self.animations@.contains_key(id),
                |id: u32| self.animations@[id]@,
            ),
            frame_time: self.frame_time,
            frame_start: self.frame_start,
            commands: self.commands@,
        }
    }
}

impl Renderer {
    /// A renderer that has drawn nothing yet and writes text in `font`. Its
    /// first frame counts from the clock reading of the call.
    pub fn new(font: Font) -> (renderer: Self)
        ensures
            renderer@ == RendererView::initial(font@, renderer@.frame_start),
    {
        let renderer = Renderer {
            frame_time: 0,
            frame_start: clock_now(),
            modifiers: Modifiers { shift: false, ctrl: false, alt: false, logo: false },
            font,
            viewport: (0, 0),
            cursor: (0, 0),
            background_color: Color::new(0, 0, 0),
            root: Layout::Col { width: 0, x: 0, y: 0 },
            scopes: Vec::new(),
            animations: HashMap::new(),
            textures: HashMap::new(),
            mouse: MouseInfo { x: 0, y: 0, lmouseclick: false, rmouseclick: false },
            input: Vec::new(),
            keys: Vec::new(),
            active_id: None,
            hot_id: None,
            hitboxes: Vec::new(),
            hitbox_stack: Vec::new(),
            commands: Vec::new(),
        };
        assert(renderer@.animations =~= Map::empty());
        renderer
    }

    /// Writes text in another font from now on, such as the same face
    /// rasterised at another size.
    pub fn change_font_size(&mut self, font: Font)
        ensures
            final(self)@ == (RendererView { font: font@, ..old(self)@ }),
    {
        self.font = font;
    }

    pub fn pos(&self) -> (cursor: (i32, i32))
        ensures
            cursor == self@.cursor,
    {
        self.cursor
    }

    pub fn is_active(&self, id: u32) -> (active: bool)
        ensures
            active == (self@.active_id == Some(id)),
    {
        match self.active_id {
            Some(aid) => aid == id,
            None => false,
        }
    }

    pub fn is_hot(&self, id: u32) -> (hot: bool)
        ensures
            hot == (self@.hot_id == Some(id)),
    {
        match self.hot_id {
            Some(hid) => hid == id,
            None => false,
        }
    }

    pub fn clear_hitboxes(&mut self)
        ensures
            final(self)@ == (RendererView { hitboxes: Seq::empty(), ..old(self)@ }),
    {
        self.hitboxes.clear();
    }

    pub fn fps(&self) -> (fps: u32)
        ensures
            fps == self@.fps(),
    {
        if self.frame_time == 0 {
            return 0;
        }
        1_000_000_000 / self.frame_time
    }

    pub fn set_background_color(&mut self, color: Color)
        ensures
            final(self)@ == (RendererView { background_color: color, ..old(self)@ }),
    {
        self.background_color = color;
    }

    /// Notes that the backend holds a decoded image of the given size under
    /// `id`, in place of any it held under `id` before.
    pub fn set_image(&mut self, id: u32, width: u32, height: u32)
        ensures
            final(self)@ == (RendererView {
                textures: old(self)@.textures.insert(id, Texture::Image { width, height }),
                ..old(self)@
            }),
    {
        self.textures.insert(id, Texture::Image { width, height });
        assert(self@.animations =~= old(self)@.animations);
    }

    /// Whether an image is registered under `id`.
    pub fn has_image(&self, id: u32) -> (known: bool)
        ensures
            known == self@.textures.contains_key(id),
    {
        self.textures.contains_key(&id)
    }

    pub fn remaining_width(&self) -> (width: i32)
        ensures
            width == clamp(self@.viewport.0 - self@.cursor.0),
    {
        retreat(self.viewport.0, self.cursor.0)
    }

    pub fn remaining_height(&self) -> (height: i32)
        ensures
            height == clamp(self@.viewport.1 - self@.cursor.1),
    {
        retreat(self.viewport.1, self.cursor.1)
    }

    pub fn width(&self) -> (width: i32)
        ensures
            width == self@.viewport.0,
    {
        self.viewport.0
    }

    pub fn height(&self) -> (height: i32)
        ensures
            height == self@.viewport.1,
    {
        self.viewport.1
    }

    /// The extent of the drawing area as of the start of the frame.
    pub fn get_viewport(&self) -> (viewport: (i32, i32))
        ensures
            viewport == self@.viewport,
    {
        self.viewport
    }

    pub fn reset_cursor(&mut self)
        ensures
            final(self)@ == old(self)@.with_cursor((0, 0)),
    {
        self.cursor = (0, 0);
    }

    /// Asks the backend to fill the frame with the background colour.
    pub fn clear(&mut self)
        ensures
            final(self)@ == old(self)@.clear(),
    {
        self.commands.push(DrawCommand::Clear { color: self.background_color });
    }

    /// Reports that a shape of the given extent has been drawn at the cursor.
    /// Every primitive that takes up room ends with this call.
    pub fn handle_new_shape(&mut self, shape_width: i32, shape_height: i32)
        ensures
            final(self)@ == old(self)@.shape(shape_width, shape_height),
    {
        let depth: usize = self.scopes.len();
        let top: Layout = if depth > 0 {
            self.scopes[depth - 1]
        } else {
            self.root
        };
        let grown: Layout = match top {
            Layout::Row { height, x, y } => {
                self.cursor.0 = offset(self.cursor.0, shape_width);
                Layout::Row { height: grow(height, shape_height), x, y }
            },
            Layout::Col { width, x, y } => {
                self.cursor.1 = offset(self.cursor.1, shape_height);
                Layout::Col { width: grow(width, shape_width), x, y }
            },
        };
        if depth > 0 {
            self.scopes.set(depth - 1, grown);
        } else {
            self.root = grown;
        }
        let open: usize = self.hitbox_stack.len();
        if open > 0 {
            let hitbox: Hitbox = self.hitbox_stack[open - 1];
            self.hitbox_stack.set(
                open - 1,
                Hitbox {
                    x: hitbox.x,
                    y: hitbox.y,
                    width: grow(hitbox.width, shape_width),
                    height: grow(hitbox.height, shape_height),
                },
            );
        }
        assert(self@.animations =~= old(self)@.animations);
    }

    pub fn space(&mut self, size: i32)
        ensures
            final(self)@ == old(self)@.space(size),
    {
        let depth: usize = self.scopes.len();
        let top: Layout = if depth > 0 {
            self.scopes[depth - 1]
        } else {
            self.root
        };
        match top {
            Layout::Row { .. } => {
                self.cursor.0 = offset(self.cursor.0, size);
            },
            Layout::Col { .. } => {
                self.cursor.1 = offset(self.cursor.1, size);
            },
        }
    }

    pub fn rectangle(&mut self, size: (i32, i32), color: Color)
        ensures
            final(self)@ == old(self)@.rectangle(size, color),
    {
        let (width, height) = size;
        let (x, y) = self.cursor;
        self.commands.push(DrawCommand::Quad { rect: Rect { x, y, width, height }, color });
        self.handle_new_shape(width, height);
    }

    /// Draws the image registered under `id` at the cursor.
    pub fn texture(&mut self, id: u32, size: (i32, i32))
        requires
            old(self)@.textures.contains_key(id),
        ensures
            final(self)@ == old(self)@.texture(id, size),
    {
        let (width, height) = size;
        let (x, y) = self.cursor;
        self.commands.push(
            DrawCommand::TexturedQuad { rect: Rect { x, y, width, height }, texture: id },
        );
        self.handle_new_shape(width, height);
    }

    /// The identifier of the first hitbox filed in this frame that contains
    /// the point.
    pub fn get_hit(&self, x: i32, y: i32) -> (hit: Option<u32>)
        ensures
            hit == first_hit(self@.hitboxes, x, y),
    {
        let n: usize = self.hitboxes.len();
        let mut i: usize = 0;
        assert(self.hitboxes@.subrange(0, n as int) =~= self.hitboxes@);
        while i < n
            invariant
                n == self.hitboxes@.len(),
                i <= n,
                first_hit(self.hitboxes@, x, y) == first_hit(
                    self.hitboxes@.subrange(i as int, n as int),
                    x,
                    y,
                ),
            decreases n - i,
        {
            let entry: (u32, Hitbox) = self.hitboxes[i];
            let ghost rest = self.hitboxes@.subrange(i as int, n as int);
            assert(rest[0] == entry);
            assert(rest.subrange(1, rest.len() as int) =~= self.hitboxes@.subrange(
                i as int + 1,
                n as int,
            ));
            if entry.1.contains_pos(x, y) {
                return Some(entry.0);
            }
            i = i + 1;
        }
        assert(self.hitboxes@.subrange(n as int, n as int).len() == 0);
        None
    }

    /// Opens a row at the cursor. Shapes drawn until the matching
    /// [`Renderer::close_row`] follow one another to the right.
    pub fn open_row(&mut self)
        ensures
            final(self)@ == old(self)@.open_row(),
    {
        self.scopes.push(Layout::Row { height: 0, x: self.cursor.0, y: self.cursor.1 });
    }

    /// Closes the row opened last: the cursor returns to the row's left edge,
    /// below the tallest shape drawn in it.
    pub fn close_row(&mut self)
        ensures
            final(self)@ == old(self)@.close_row(),
    {
        match self.scopes.pop() {
            Some(Layout::Row { height, x, y }) => {
                self.cursor.0 = x;
                self.cursor.1 = offset(y, height);
            },
            _ => {},
        }
    }

    /// Opens a column at the cursor. Shapes drawn until the matching
    /// [`Renderer::close_col`] follow one another downwards.
    pub fn open_col(&mut self)
        ensures
            final(self)@ == old(self)@.open_col(),
    {
        self.scopes.push(Layout::Col { width: 0, x: self.cursor.0, y: self.cursor.1 });
    }

    /// Closes the column opened last: the cursor returns to the column's top
    /// edge, to the right of the widest shape drawn in it.
    pub fn close_col(&mut self)
        ensures
            final(self)@ == old(self)@.close_col(),
    {
        match self.scopes.pop() {
            Some(Layout::Col { width, x, y }) => {
                self.cursor.0 = offset(x, width);
                self.cursor.1 = y;
            },
            _ => {},
        }
    }

    /// Draws a row: `body` draws its shapes from left to right, and the cursor
    /// then moves below the row.
    pub fn row<F: FnOnce(&mut Renderer)>(&mut self, body: F)
        requires
            forall|r: &mut Renderer| r@ == old(self)@.open_row() ==> body.requires((r,)),
        ensures
            exists|r: &mut Renderer|
                r@ == old(self)@.open_row() && body.ensures((r,), ()) && final(self)@ == final(r)@
                    .close_row(),
    {
        self.open_row();
        body(self);
        self.close_row();
    }

    /// Draws a column: `body` draws its shapes from top to bottom, and the
    /// cursor then moves to the right of the column.
    pub fn col<F: FnOnce(&mut Renderer)>(&mut self, body: F)
        requires
            forall|r: &mut Renderer| r@ == old(self)@.open_col() ==> body.requires((r,)),
        ensures
            exists|r: &mut Renderer|
                r@ == old(self)@.open_col() && body.ensures((r,), ()) && final(self)@ == final(r)@
                    .close_col(),
    {
        self.open_col();
        body(self);
        self.close_col();
    }

    /// Places the cursor at `(x, y)`; a negative coordinate counts back from
    /// the right or bottom edge of the viewport. Returns the cursor as it was.
    pub fn place_cursor(&mut self, x: i32, y: i32) -> (before: (i32, i32))
        ensures
            before == old(self)@.cursor,
            final(self)@ == old(self)@.placed(x, y),
    {
        let before = self.cursor;
        self.cursor.0 = if x < 0 {
            offset(self.viewport.0, x)
        } else {
            x
        };
        self.cursor.1 = if y < 0 {
            offset(self.viewport.1, y)
        } else {
            y
        };
        before
    }

    /// Moves the cursor by `(x, y)`. Returns the cursor as it was.
    pub fn shift_cursor(&mut self, x: i32, y: i32) -> (before: (i32, i32))
        ensures
            before == old(self)@.cursor,
            final(self)@ == old(self)@.moved(x, y),
    {
        let before = self.cursor;
        self.cursor.0 = offset(self.cursor.0, x);
        self.cursor.1 = offset(self.cursor.1, y);
        before
    }

    /// Puts the cursor back where it was before a call of
    /// [`Renderer::place_cursor`] or [`Renderer::shift_cursor`].
    pub fn restore_cursor(&mut self, before: (i32, i32))
        ensures
            final(self)@ == old(self)@.with_cursor(before),
    {
        self.cursor = before;
    }

    /// Runs `body` with the cursor at `(x, y)` and puts the cursor back
    /// afterwards. A negative coordinate counts back from the right or bottom
    /// edge of the viewport.
    pub fn set_cursor<F: FnOnce(&mut Renderer)>(&mut self, x: i32, y: i32, body: F)
        requires
            forall|r: &mut Renderer| r@ == old(self)@.placed(x, y) ==> body.requires((r,)),
        ensures
            exists|r: &mut Renderer|
                r@ == old(self)@.placed(x, y) && body.ensures((r,), ()) && final(self)@ == final(r)@
                    .with_cursor(old(self)@.cursor),
    {
        let before = self.place_cursor(x, y);
        body(self);
        self.restore_cursor(before);
    }

    /// Runs `body` with the cursor moved by `(x, y)` and puts the cursor back
    /// afterwards.
    pub fn move_cursor<F: FnOnce(&mut Renderer)>(&mut self, x: i32, y: i32, body: F)
        requires
            forall|r: &mut Renderer| r@ == old(self)@.moved(x, y) ==> body.requires((r,)),
        ensures
            exists|r: &mut Renderer|
                r@ == old(self)@.moved(x, y) && body.ensures((r,), ()) && final(self)@ == final(r)@
                    .with_cursor(old(self)@.cursor),
    {
        let before = self.shift_cursor(x, y);
        body(self);
        self.restore_cursor(before);
    }

    /// Opens a hitbox of no extent at the cursor. It grows with every shape
    /// drawn until the matching [`Renderer::close_hitbox`].
    pub fn open_hitbox(&mut self)
        ensures
            final(self)@ == old(self)@.open_hitbox(),
    {
        self.hitbox_stack.push(Hitbox::new(self.cursor.0, self.cursor.1, 0, 0));
    }

    /// Closes the hitbox opened last and files it under `id` for the next
    /// frame's lookup of the hot widget.
    pub fn close_hitbox(&mut self, id: u32)
        ensures
            final(self)@ == old(self)@.close_hitbox(id),
    {
        match self.hitbox_stack.pop() {
            Some(hitbox) => {
                self.file_hitbox(id, hitbox);
            },
            None => {},
        }
    }

    fn file_hitbox(&mut self, id: u32, hitbox: Hitbox)
        ensures
            final(self)@ == (RendererView {
                hitboxes: table_insert(old(self)@.hitboxes, id, hitbox),
                ..old(self)@
            }),
    {
        let n: usize = self.hitboxes.len();
        let ghost table = self.hitboxes@;
        let mut i: usize = 0;
        assert(table.subrange(0, 0) + table_insert(table.subrange(0, n as int), id, hitbox)
            =~= table_insert(table, id, hitbox)) by {
            assert(table.subrange(0, n as int) =~= table);
        }
        while i < n
            invariant
                n == table.len(),
                i <= n,
                *self == *old(self),
                self.hitboxes@ == table,
                table_insert(table, id, hitbox) == table.subrange(0, i as int) + table_insert(
                    table.subrange(i as int, n as int),
                    id,
                    hitbox,
                ),
            decreases n - i,
        {
            let ghost rest = table.subrange(i as int, n as int);
            assert(rest[0] == table[i as int]);
            assert(rest.subrange(1, rest.len() as int) =~= table.subrange(i as int + 1, n as int));
            if self.hitboxes[i].0 == id {
                self.hitboxes.set(i, (id, hitbox));
                assert(self.hitboxes@ =~= table.subrange(0, i as int) + rest.update(
                    0,
                    (id, hitbox),
                ));
                assert(self@.animations =~= old(self)@.animations);
                return ;
            }
            assert(table.subrange(0, i as int) + (seq![rest[0]] + table_insert(
                rest.subrange(1, rest.len() as int),
                id,
                hitbox,
            )) =~= table.subrange(0, i as int + 1) + table_insert(
                table.subrange(i as int + 1, n as int),
                id,
                hitbox,
            ));
            i = i + 1;
        }
        self.hitboxes.push((id, hitbox));
        assert(self.hitboxes@ =~= table.subrange(0, n as int) + seq![(id, hitbox)]);
        assert(self@.animations =~= old(self)@.animations);
    }

    /// Draws a widget that senses the pointer. `body` is told whether the
    /// widget is hot and whether it is active, as resolved when the frame
    /// began; the room its shapes take is filed under `id` for the next frame.
    pub fn hitbox<F: FnOnce(&mut Renderer, bool, bool)>(&mut self, id: u32, body: F)
        requires
            forall|r: &mut Renderer|
                r@ == old(self)@.open_hitbox() ==> body.requires(
                    (r, old(self)@.hot_id == Some(id), old(self)@.active_id == Some(id)),
                ),
        ensures
            exists|r: &mut Renderer|
                r@ == old(self)@.open_hitbox() && body.ensures(
                    (r, old(self)@.hot_id == Some(id), old(self)@.active_id == Some(id)),
                    (),
                ) && final(self)@ == final(r)@.close_hitbox(id),
    {
        let is_hot = self.is_hot(id);
        let is_active = self.is_active(id);
        self.open_hitbox();
        body(self, is_hot, is_active);
        self.close_hitbox(id);
    }

    /// The room a run of text takes: the sum of its glyphs' steps, and the
    /// height of a line.
    pub fn calculate_text_size(&self, text: &str) -> (size: (i32, i32))
        requires
            self@.font.covers(text@),
        ensures
            size == (self@.font.run_width(text@), self@.font.line_height()),
    {
        let mut width: i32 = 0;
        let height: i32 = pixels_of(self.font.size());
        for c in it: text.chars()
            invariant
                it.seq() == text@,
                self@.font.covers(text@),
                width == self@.font.run_width(text@.take(it.index())),
        {
            let ghost i = it.index();
            assert(text@.take(i + 1).drop_last() =~= text@.take(i));
            assert(text@[i] == c);
            let info: &CharacterInfo = self.font.get_info(c).unwrap();
            width = offset(width, info.pen_step());
        }
        assert(text@.take(text@.len() as int) =~= text@);
        (width, height)
    }

    /// Writes a run of text from the cursor, one glyph after another.
    pub fn text(&mut self, value: &str, color: Color)
        requires
            old(self)@.font.covers(value@),
        ensures
            final(self)@ == old(self)@.text(value@, color),
    {
        let (origin_x, y) = self.cursor;
        let font_size: u32 = self.font.size();
        let mut x: i32 = origin_x;
        let mut width: i32 = 0;
        let mut height: i32 = 0;
        let ghost start = self@;
        assert(start.commands + start.text_commands(value@.take(0), color) =~= start.commands);
        for c in it: value.chars()
            invariant
                it.seq() == value@,
                start.font.covers(value@),
                start.cursor == (origin_x, y),
                start.font.size == font_size,
                self@ == (RendererView {
                    commands: start.commands + start.text_commands(
                        value@.take(it.index()),
                        color,
                    ),
                    ..start
                }),
                x == start.font.pen_x(origin_x, value@.take(it.index())),
                width == start.font.run_width(value@.take(it.index())),
                height == start.font.run_height(y, value@.take(it.index())),
        {
            let ghost i = it.index();
            assert(value@.take(i + 1).drop_last() =~= value@.take(i));
            assert(value@[i] == c);
            let info: CharacterInfo = *self.font.get_info(c).unwrap();
            let rect: Rect = info.glyph_quad(font_size, x, y);
            height = grow(height, info.glyph_reach(font_size, y));
            self.commands.push(DrawCommand::Glyph { c, rect, color });
            let step: i32 = info.pen_step();
            x = offset(x, step);
            width = offset(width, step);
            assert(value@.take(i + 1).last() == c);
            assert(start.text_commands(value@.take(i + 1), color) =~= start.text_commands(
                value@.take(i),
                color,
            ).push(glyph(c, rect, color)));
            assert(self.commands@ =~= start.commands + start.text_commands(
                value@.take(i + 1),
                color,
            ));
            assert(self@.animations =~= start.animations);
        }
        assert(value@.take(value@.len() as int) =~= value@);
        self.handle_new_shape(width, height);
    }

    /// Asks the animation filed under `id` for its values by the clock. Where
    /// none is filed, one with the whole milliseconds of `duration` and the
    /// given transitions starts now and is filed. The values are those for
    /// whatever time has passed since the animation started.
    pub fn advance_animation(&mut self, id: u32, duration: Duration, transitions: &[Transition]) -> (values:
        Vec<i32>)
        ensures
            final(self)@.animations.contains_key(id),
            exists|elapsed_ms: u64|
                final(self)@ == old(self)@.animated(
                    id,
                    capped(millis_of(duration)),
                    transitions@,
                    final(self)@.animations[id].started,
                    elapsed_ms,
                ) && values@ == old(self)@.animation_values(
                    id,
                    capped(millis_of(duration)),
                    transitions@,
                    elapsed_ms,
                ),
    {
        let mut animation: Animation = match self.animations.remove(&id) {
            Some(animation) => animation,
            None => Animation::new(duration, slice_to_vec(transitions)),
        };
        let ghost before = animation@;
        let values: Vec<i32> = animation.animate();
        self.animations.insert(id, animation);
        proof {
            let elapsed_ms: u64 = if before.done {
                0
            } else {
                choose|elapsed_ms: u64|
                    animation@ == before.advance(elapsed_ms) && values@ == before.values(
                        elapsed_ms,
                    )
            };
            assert(animation@ == before.advance(elapsed_ms));
            assert(values@ == before.values(elapsed_ms));
            assert(self@.animations =~= old(self)@.animated(
                id,
                capped(millis_of(duration)),
                transitions@,
                before.started,
                elapsed_ms,
            ).animations);
            assert(values@ == old(self)@.animation_values(
                id,
                capped(millis_of(duration)),
                transitions@,
                elapsed_ms,
            ));
        }
        values
    }

    /// Asks the animation filed under `id` for its values when `elapsed_ms`
    /// milliseconds have passed since it started. Where none is filed, one of
    /// `duration_ms` milliseconds with the given transitions starts now and is
    /// filed.
    pub fn advance_animation_at(
        &mut self,
        id: u32,
        duration_ms: u64,
        transitions: &[Transition],
        elapsed_ms: u64,
    ) -> (values: Vec<i32>)
        ensures
            final(self)@.animations.contains_key(id),
            final(self)@ == old(self)@.animated(
                id,
                duration_ms,
                transitions@,
                final(self)@.animations[id].started,
                elapsed_ms,
            ),
            values@ == old(self)@.animation_values(id, duration_ms, transitions@, elapsed_ms),
    {
        let mut animation: Animation = match self.animations.remove(&id) {
            Some(animation) => animation,
            None => Animation::with_millis(duration_ms, slice_to_vec(transitions)),
        };
        let ghost before = animation@;
        let values: Vec<i32> = animation.animate_at(elapsed_ms);
        self.animations.insert(id, animation);
        assert(self@.animations =~= old(self)@.animated(
            id,
            duration_ms,
            transitions@,
            before.started,
            elapsed_ms,
        ).animations);
        values
    }

    /// The clock reading at which the animation filed under `id` started.
    pub fn animation_started(&self, id: u32) -> (start: Option<Instant>)
        ensures
            match start {
                Some(reading) => self@.animations.contains_key(id) && reading
                    == self@.animations[id].started,
                None => !self@.animations.contains_key(id),
            },
    {
        match self.animations.get(&id) {
            Some(animation) => Some(animation.started()),
            None => None,
        }
    }

    /// The clock reading at which the current frame started.
    pub fn frame_start(&self) -> (start: Instant)
        ensures
            start == self@.frame_start,
    {
        self.frame_start
    }

    /// The number of transitions of the animation filed under `id`.
    pub fn animation_arity(&self, id: u32) -> (arity: Option<usize>)
        ensures
            match arity {
                Some(n) => self@.animations.contains_key(id) && n
                    == self@.animations[id].transitions.len(),
                None => !self@.animations.contains_key(id),
            },
    {
        match self.animations.get(&id) {
            Some(animation) => Some(animation.arity()),
            None => None,
        }
    }

    /// Draws with animated values: `body` is handed the current value of each
    /// transition, by the clock. The animation is created and started at the
    /// first call for `id`; later calls for `id` go on with it, whatever
    /// duration and transitions they name.
    pub fn animate<F: FnOnce(&mut Renderer, Vec<i32>)>(
        &mut self,
        id: u32,
        duration: Duration,
        transitions: &[Transition],
        body: F,
    )
        requires
            old(self)@.animations.contains_key(id) ==> old(self)@.animations[id].transitions.len()
                == transitions@.len(),
            forall|r: &mut Renderer, values: Vec<i32>, now: Instant, elapsed_ms: u64|
                r@ == old(self)@.animated(
                    id,
                    capped(millis_of(duration)),
                    transitions@,
                    now,
                    elapsed_ms,
                ) && values@ == old(self)@.animation_values(
                    id,
                    capped(millis_of(duration)),
                    transitions@,
                    elapsed_ms,
                ) ==> body.requires((r, values)),
        ensures
            exists|r: &mut Renderer, values: Vec<i32>, now: Instant, elapsed_ms: u64|
                r@ == old(self)@.animated(
                    id,
                    capped(millis_of(duration)),
                    transitions@,
                    now,
                    elapsed_ms,
                ) && values@ == old(self)@.animation_values(
                    id,
                    capped(millis_of(duration)),
                    transitions@,
                    elapsed_ms,
                ) && body.ensures((r, values), ()) && final(self)@ == final(r)@,
    {
        let values: Vec<i32> = self.advance_animation(id, duration, transitions);
        body(self, values);
    }

    /// Draws with animated values as they are when `elapsed_ms` milliseconds
    /// have passed since the animation filed under `id` started.
    pub fn animate_at<F: FnOnce(&mut Renderer, Vec<i32>)>(
        &mut self,
        id: u32,
        duration_ms: u64,
        transitions: &[Transition],
        elapsed_ms: u64,
        body: F,
    )
        requires
            old(self)@.animations.contains_key(id) ==> old(self)@.animations[id].transitions.len()
                == transitions@.len(),
            forall|r: &mut Renderer, values: Vec<i32>, now: Instant|
                r@ == old(self)@.animated(id, duration_ms, transitions@, now, elapsed_ms)
                    && values@ == old(self)@.animation_values(
                    id,
                    duration_ms,
                    transitions@,
                    elapsed_ms,
                ) ==> body.requires((r, values)),
        ensures
            exists|r: &mut Renderer, values: Vec<i32>, now: Instant|
                r@ == old(self)@.animated(id, duration_ms, transitions@, now, elapsed_ms)
                    && values@ == old(self)@.animation_values(
                    id,
                    duration_ms,
                    transitions@,
                    elapsed_ms,
                ) && body.ensures((r, values), ()) && final(self)@ == final(r)@,
    {
        let values: Vec<i32> = self.advance_animation_at(id, duration_ms, transitions, elapsed_ms);
        body(self, values);
    }

    /// Starts the animation filed under `id` again from now, whatever the
    /// clock reads. Nothing happens where none is filed.
    pub fn reset_animation(&mut self, id: u32)
        ensures
            old(self)@.animations.contains_key(id) ==> final(self)@.animations.contains_key(id)
                && final(self)@ == old(self)@.reset_animation(
                id,
                final(self)@.animations[id].started,
            ),
            !old(self)@.animations.contains_key(id) ==> final(self)@ == old(self)@,
    {
        self.reset_animation_at(id, clock_now());
    }

    /// Starts the animation filed under `id` again from the clock reading
    /// `now`. Nothing happens where none is filed.
    pub fn reset_animation_at(&mut self, id: u32, now: Instant)
        ensures
            final(self)@ == old(self)@.reset_animation(id, now),
    {
        match self.animations.remove(&id) {
            Some(animation) => {
                let mut animation = animation;
                animation.reset_at(now);
                self.animations.insert(id, animation);
                assert(self@.animations =~= old(self)@.reset_animation(id, now).animations);
            },
            None => {
                assert(self@.animations =~= old(self)@.animations);
            },
        }
    }

    /// Writes the frame rate near the top-right corner of the viewport and
    /// leaves the cursor where it was. Writes nothing, and says so, where the
    /// font lacks a glyph of the readout.
    pub fn show_fps(&mut self) -> (shown: bool)
        ensures
            shown == old(self)@.font.covers(old(self)@.fps_label()),
            shown ==> final(self)@ == old(self)@.show_fps(),
            !shown ==> final(self)@ == old(self)@,
    {
        let mut label: String = String::new();
        push_decimal_4(&mut label, self.fps());
        label.push(' ');
        label.push('f');
        label.push('p');
        label.push('s');
        assert(label@ =~= self@.fps_label());
        if !self.font.has_glyphs(label.as_str()) {
            return false;
        }
        let before = self.place_cursor(pixels(-80), 0);
        self.text(label.as_str(), Color::black());
        self.restore_cursor(before);
        true
    }

    pub fn active_id(&self) -> (id: Option<u32>)
        ensures
            id == self@.active_id,
    {
        self.active_id
    }

    /// Makes the widget filed under `id` the active one, or none where `id` is
    /// `None`. The active widget stays active from frame to frame until this
    /// is called again.
    pub fn set_active_id(&mut self, id: Option<u32>)
        ensures
            final(self)@ == (RendererView { active_id: id, ..old(self)@ }),
    {
        self.active_id = id;
    }

    pub fn hot_id(&self) -> (id: Option<u32>)
        ensures
            id == self@.hot_id,
    {
        self.hot_id
    }

    pub fn mouse(&self) -> (mouse: MouseInfo)
        ensures
            mouse == self@.mouse,
    {
        self.mouse
    }

    pub fn set_mouse(&mut self, mouse: MouseInfo)
        ensures
            final(self)@ == (RendererView { mouse, ..old(self)@ }),
    {
        self.mouse = mouse;
    }

    pub fn modifiers(&self) -> (modifiers: Modifiers)
        ensures
            modifiers == self@.modifiers,
    {
        self.modifiers
    }

    pub fn set_modifiers(&mut self, modifiers: Modifiers)
        ensures
            final(self)@ == (RendererView { modifiers, ..old(self)@ }),
    {
        self.modifiers = modifiers;
    }

    pub fn background_color(&self) -> (color: Color)
        ensures
            color == self@.background_color,
    {
        self.background_color
    }

    pub fn font(&self) -> (font: &Font)
        ensures
            font@ == self@.font,
    {
        &self.font
    }

    /// Queues a typed character for the widgets of the coming frame.
    pub fn push_input(&mut self, c: char)
        ensures
            final(self)@ == (RendererView { input: old(self)@.input.push(c), ..old(self)@ }),
    {
        self.input.push(c);
    }

    /// Queues a pressed key for the widgets of the coming frame.
    pub fn push_key(&mut self, key: Key)
        ensures
            final(self)@ == (RendererView { keys: old(self)@.keys.push(key), ..old(self)@ }),
    {
        self.keys.push(key);
    }

    /// The rectangle filed under `id` in this frame.
    pub fn hitbox_of(&self, id: u32) -> (hitbox: Option<Hitbox>)
        ensures
            hitbox == table_get(self@.hitboxes, id),
    {
        let n: usize = self.hitboxes.len();
        let mut i: usize = 0;
        assert(self.hitboxes@.subrange(0, n as int) =~= self.hitboxes@);
        while i < n
            invariant
                n == self.hitboxes@.len(),
                i <= n,
                table_get(self.hitboxes@, id) == table_get(
                    self.hitboxes@.subrange(i as int, n as int),
                    id,
                ),
            decreases n - i,
        {
            let entry: (u32, Hitbox) = self.hitboxes[i];
            let ghost rest = self.hitboxes@.subrange(i as int, n as int);
            assert(rest[0] == entry);
            assert(rest.subrange(1, rest.len() as int) =~= self.hitboxes@.subrange(
                i as int + 1,
                n as int,
            ));
            if entry.0 == id {
                return Some(entry.1);
            }
            i = i + 1;
        }
        assert(self.hitboxes@.subrange(n as int, n as int).len() == 0);
        None
    }

    /// Takes the characters typed since the last frame ended.
    pub fn consume_input(&mut self) -> (input: Vec<char>)
        ensures
            input@ == old(self)@.input,
            final(self)@ == (RendererView { input: Seq::empty(), ..old(self)@ }),
    {
        let mut taken: Vec<char> = Vec::new();
        std::mem::swap(&mut taken, &mut self.input);
        taken
    }

    /// Takes the keys pressed since the last frame ended.
    pub fn consume_keys(&mut self) -> (keys: Vec<Key>)
        ensures
            keys@ == old(self)@.keys,
            final(self)@ == (RendererView { keys: Seq::empty(), ..old(self)@ }),
    {
        let mut taken: Vec<Key> = Vec::new();
        std::mem::swap(&mut taken, &mut self.keys);
        taken
    }

    /// Takes the commands recorded since they were last taken, for the backend
    /// to replay.
    pub fn take_commands(&mut self) -> (commands: Vec<DrawCommand>)
        ensures
            commands@ == old(self)@.commands,
            final(self)@ == (RendererView { commands: Seq::empty(), ..old(self)@ }),
    {
        let mut taken: Vec<DrawCommand> = Vec::new();
        std::mem::swap(&mut taken, &mut self.commands);
        taken
    }

    /// Starts a fresh frame on a drawing area of the given extent. The frame
    /// counts from the clock reading of the call.
    pub fn next_frame(&mut self, viewport: (i32, i32))
        ensures
            final(self)@ == old(self)@.next_frame(viewport, final(self)@.frame_start),
    {
        self.next_frame_at(viewport, clock_now());
    }

    /// Starts a fresh frame that counts from the clock reading `now`.
    pub fn next_frame_at(&mut self, viewport: (i32, i32), now: Instant)
        ensures
            final(self)@ == old(self)@.next_frame(viewport, now),
    {
        self.reset_cursor();
        self.viewport = viewport;
        self.frame_start = now;
    }

    /// Starts a frame: a fresh frame in which the widget under the pointer, by
    /// the hitboxes of the frame before, is hot. The frame counts from the
    /// clock reading of the call.
    pub fn begin_frame(&mut self, viewport: (i32, i32))
        ensures
            final(self)@ == old(self)@.begin_frame(viewport, final(self)@.frame_start),
    {
        self.begin_frame_at(viewport, clock_now());
    }

    /// Starts a frame that counts from the clock reading `now`.
    pub fn begin_frame_at(&mut self, viewport: (i32, i32), now: Instant)
        ensures
            final(self)@ == old(self)@.begin_frame(viewport, now),
    {
        self.next_frame_at(viewport, now);
        self.hot_id = self.get_hit(self.mouse.x, self.mouse.y);
        self.mouse.lmouseclick = false;
        self.mouse.rmouseclick = false;
        self.clear_hitboxes();
    }

    /// Ends the frame by the clock: whatever time the frame took is recorded
    /// and the input queue is emptied.
    pub fn done(&mut self)
        ensures
            exists|nanos: u128| final(self)@ == old(self)@.end_frame(nanos),
    {
        let span: Duration = clock_elapsed(&self.frame_start);
        let nanos: u128 = whole_nanos(&span);
        self.end_frame(nanos);
    }

    /// Ends a frame that took `nanos` nanoseconds.
    pub fn end_frame(&mut self, nanos: u128)
        ensures
            final(self)@ == old(self)@.end_frame(nanos),
    {
        self.frame_time = (nanos % 0x1_0000_0000) as u32;
        self.input.clear();
        self.keys.clear();
    }
}

} // verus!
