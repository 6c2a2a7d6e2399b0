//! Laws of layout, hit-testing and the input queue, proved over the model.

use vstd::prelude::*;
use std::time::Instant;
use crate::color::Color;
use crate::hitbox::{first_hit, table_has, table_insert, Hitbox};
use crate::layout::Layout;
use crate::model::{hitbox_grown, RendererView};
use crate::units::{clamp, larger};

verus! {

/// Something drawn inside a row, a column or a hitbox: a gap, or a shape of a
/// given width and height, be it a rectangle, an image or anything else that
/// reports its extent.
pub ghost enum Draw {
    Space(i32),
    Shape(i32, i32),
    Rectangle(i32, i32, Color),
    Texture(u32, i32, i32),
}

impl Draw {
    /// The extent a draw reports, if it is a shape.
    pub open spec fn extent(self) -> Option<(i32, i32)> {
        match self {
            Draw::Space(_) => None,
            Draw::Shape(width, height) => Some((width, height)),
            Draw::Rectangle(width, height, _) => Some((width, height)),
            Draw::Texture(_, width, height) => Some((width, height)),
        }
    }
}

/// The state after one draw.
pub open spec fn draw(view: RendererView, step: Draw) -> RendererView {
    match step {
        Draw::Space(size) => view.space(size),
        Draw::Shape(width, height) => view.shape(width, height),
        Draw::Rectangle(width, height, color) => view.rectangle((width, height), color),
        Draw::Texture(id, width, height) => view.texture(id, (width, height)),
    }
}

/// The state after a sequence of draws, first to last.
pub open spec fn draw_all(view: RendererView, steps: Seq<Draw>) -> RendererView
    decreases steps.len(),
{
    if steps.len() == 0 {
        view
    } else {
        draw(draw_all(view, steps.drop_last()), steps.last())
    }
}

/// The largest height among the shapes of a sequence of draws, and 0 where
/// none is taller than that.
pub open spec fn tallest(steps: Seq<Draw>) -> i32
    decreases steps.len(),
{
    if steps.len() == 0 {
        0
    } else {
        match steps.last().extent() {
            None => tallest(steps.drop_last()),
            Some((_, height)) => larger(tallest(steps.drop_last()), height),
        }
    }
}

/// The largest width among the shapes of a sequence of draws, and 0 where
/// none is wider than that.
pub open spec fn widest(steps: Seq<Draw>) -> i32
    decreases steps.len(),
{
    if steps.len() == 0 {
        0
    } else {
        match steps.last().extent() {
            None => widest(steps.drop_last()),
            Some((width, _)) => larger(widest(steps.drop_last()), width),
        }
    }
}

/// One gap or shape touches nothing but the cursor, the extent of the
/// current context, the extent of the innermost open hitbox and the list of
/// commands.
proof fn lemma_draw_keeps(view: RendererView, step: Draw)
    ensures
        draw(view, step) == (RendererView {
            cursor: draw(view, step).cursor,
            root: draw(view, step).root,
            scopes: draw(view, step).scopes,
            open_hitboxes: draw(view, step).open_hitboxes,
            commands: draw(view, step).commands,
            ..view
        }),
        draw(view, step).scopes.len() == view.scopes.len(),
        draw(view, step).open_hitboxes.len() == view.open_hitboxes.len(),
        forall|i: int|
            0 <= i < view.scopes.len() - 1 ==> (#[trigger] draw(view, step).scopes[i])
                == view.scopes[i],
        forall|i: int|
            0 <= i < view.open_hitboxes.len() - 1 ==> (#[trigger] draw(
                view,
                step,
            ).open_hitboxes[i]) == view.open_hitboxes[i],
        view.scopes.len() > 0 ==> draw(view, step).root == view.root,
        draw(view, step).top() == match step.extent() {
            None => view.top(),
            Some((width, height)) => view.top().grown(width, height),
        },
        view.open_hitboxes.len() > 0 ==> draw(view, step).open_hitboxes.last()
            == match step.extent() {
            None => view.open_hitboxes.last(),
            Some((width, height)) => hitbox_grown(view.open_hitboxes.last(), width, height),
        },
{
}

/// Gaps and shapes touch nothing but the cursor, the extent of the current
/// context, the extent of the innermost open hitbox and the list of commands.
pub proof fn lemma_draws_keep(view: RendererView, steps: Seq<Draw>)
    ensures
        draw_all(view, steps) == (RendererView {
            cursor: draw_all(view, steps).cursor,
            root: draw_all(view, steps).root,
            scopes: draw_all(view, steps).scopes,
            open_hitboxes: draw_all(view, steps).open_hitboxes,
            commands: draw_all(view, steps).commands,
            ..view
        }),
        draw_all(view, steps).scopes.len() == view.scopes.len(),
        draw_all(view, steps).open_hitboxes.len() == view.open_hitboxes.len(),
        forall|i: int|
            0 <= i < view.scopes.len() - 1 ==> (#[trigger] draw_all(view, steps).scopes[i])
                == view.scopes[i],
        forall|i: int|
            0 <= i < view.open_hitboxes.len() - 1 ==> (#[trigger] draw_all(
                view,
                steps,
            ).open_hitboxes[i]) == view.open_hitboxes[i],
        view.scopes.len() > 0 ==> draw_all(view, steps).root == view.root,
    decreases steps.len(),
{
    if steps.len() > 0 {
        lemma_draws_keep(view, steps.drop_last());
        lemma_draw_keeps(draw_all(view, steps.drop_last()), steps.last());
    }
}

/// Inside a row that began with a height of at least 0 at `(x, y)`, the row's height
/// after a sequence of draws is the largest of `height` and the shapes'
/// heights.
proof fn lemma_row_grows(view: RendererView, steps: Seq<Draw>, height: i32, x: i32, y: i32)
    requires
        view.top() == (Layout::Row { height, x, y }),
        height >= 0,
    ensures
        draw_all(view, steps).top() == (Layout::Row {
            height: larger(height, tallest(steps)),
            x,
            y,
        }),
        tallest(steps) >= 0,
    decreases steps.len(),
{
    if steps.len() > 0 {
        lemma_row_grows(view, steps.drop_last(), height, x, y);
        lemma_draw_keeps(draw_all(view, steps.drop_last()), steps.last());
    }
}

/// Inside a column that began with a width of at least 0 at `(x, y)`, the column's
/// width after a sequence of draws is the largest of `width` and the shapes'
/// widths.
proof fn lemma_col_grows(view: RendererView, steps: Seq<Draw>, width: i32, x: i32, y: i32)
    requires
        view.top() == (Layout::Col { width, x, y }),
        width >= 0,
    ensures
        draw_all(view, steps).top() == (Layout::Col { width: larger(width, widest(steps)), x, y }),
        widest(steps) >= 0,
    decreases steps.len(),
{
    if steps.len() > 0 {
        lemma_col_grows(view, steps.drop_last(), width, x, y);
        lemma_draw_keeps(draw_all(view, steps.drop_last()), steps.last());
    }
}

/// Whatever gaps and shapes are drawn in a row, the row ends as tall as its
/// tallest shape, and closing it puts the cursor at the row's starting x,
/// below the starting y by that height: exactly so where that sum is within
/// the `i32` range, at the end of the range otherwise. The contexts around the
/// row are as they were.
pub proof fn lemma_row_extent(view: RendererView, steps: Seq<Draw>)
    ensures
        draw_all(view.open_row(), steps).top() == (Layout::Row {
            height: tallest(steps),
            x: view.cursor.0,
            y: view.cursor.1,
        }),
        draw_all(view.open_row(), steps).close_row().cursor == (
            view.cursor.0,
            clamp(view.cursor.1 + tallest(steps)),
        ),
        view.cursor.1 + tallest(steps) <= i32::MAX ==> draw_all(
            view.open_row(),
            steps,
        ).close_row().cursor == (view.cursor.0, (view.cursor.1 + tallest(steps)) as i32),
        draw_all(view.open_row(), steps).close_row().scopes == view.scopes,
        draw_all(view.open_row(), steps).close_row().root == view.root,
{
    let opened = view.open_row();
    lemma_row_grows(opened, steps, 0, view.cursor.0, view.cursor.1);
    lemma_draws_keep(opened, steps);
    let inside = draw_all(opened, steps);
    assert(inside.scopes.drop_last() =~= view.scopes);
}

/// Whatever gaps and shapes are drawn in a column, the column ends as wide as
/// its widest shape, and closing it puts the cursor at the column's starting
/// y, right of the starting x by that width: exactly so where that sum is
/// within the `i32` range, at the end of the range otherwise. The contexts
/// around the column are as they were.
pub proof fn lemma_col_extent(view: RendererView, steps: Seq<Draw>)
    ensures
        draw_all(view.open_col(), steps).top() == (Layout::Col {
            width: widest(steps),
            x: view.cursor.0,
            y: view.cursor.1,
        }),
        draw_all(view.open_col(), steps).close_col().cursor == (
            clamp(view.cursor.0 + widest(steps)),
            view.cursor.1,
        ),
        view.cursor.0 + widest(steps) <= i32::MAX ==> draw_all(
            view.open_col(),
            steps,
        ).close_col().cursor == ((view.cursor.0 + widest(steps)) as i32, view.cursor.1),
        draw_all(view.open_col(), steps).close_col().scopes == view.scopes,
        draw_all(view.open_col(), steps).close_col().root == view.root,
{
    let opened = view.open_col();
    lemma_col_grows(opened, steps, 0, view.cursor.0, view.cursor.1);
    lemma_draws_keep(opened, steps);
    let inside = draw_all(opened, steps);
    assert(inside.scopes.drop_last() =~= view.scopes);
}

/// An open hitbox of an extent of at least 0 grows to the widest and tallest of
/// the shapes drawn in it and keeps its corner.
proof fn lemma_hitbox_grows(view: RendererView, steps: Seq<Draw>, hitbox: Hitbox)
    requires
        view.open_hitboxes.len() > 0,
        view.open_hitboxes.last() == hitbox,
        hitbox.width >= 0,
        hitbox.height >= 0,
    ensures
        draw_all(view, steps).open_hitboxes.len() == view.open_hitboxes.len(),
        draw_all(view, steps).open_hitboxes.last() == (Hitbox {
            x: hitbox.x,
            y: hitbox.y,
            width: larger(hitbox.width, widest(steps)),
            height: larger(hitbox.height, tallest(steps)),
        }),
        widest(steps) >= 0,
        tallest(steps) >= 0,
    decreases steps.len(),
{
    if steps.len() > 0 {
        lemma_hitbox_grows(view, steps.drop_last(), hitbox);
        lemma_draw_keeps(draw_all(view, steps.drop_last()), steps.last());
    }
}

/// A hitbox scope files, under its identifier, the rectangle that begins at
/// the cursor where the scope was opened and is as wide as the widest and as
/// tall as the tallest shape drawn in the scope.
pub proof fn lemma_hitbox_extent(view: RendererView, id: u32, steps: Seq<Draw>)
    ensures
        draw_all(view.open_hitbox(), steps).close_hitbox(id).hitboxes == table_insert(
            view.hitboxes,
            id,
            Hitbox {
                x: view.cursor.0,
                y: view.cursor.1,
                width: widest(steps),
                height: tallest(steps),
            },
        ),
        draw_all(view.open_hitbox(), steps).close_hitbox(id).open_hitboxes == view.open_hitboxes,
{
    let opened = view.open_hitbox();
    let corner = Hitbox { x: view.cursor.0, y: view.cursor.1, width: 0, height: 0 };
    lemma_hitbox_grows(opened, steps, corner);
    lemma_draws_keep(opened, steps);
    let inside = draw_all(opened, steps);
    assert(inside.open_hitboxes.drop_last() =~= view.open_hitboxes);
}

/// A lookup finds the identifier of the first entry, in filing order, whose
/// rectangle contains the point, and nothing where no entry's does.
pub proof fn lemma_first_hit_is_filed(table: Seq<(u32, Hitbox)>, x: i32, y: i32)
    ensures
        match first_hit(table, x, y) {
            Some(id) => exists|i: int|
                0 <= i < table.len() && (#[trigger] table[i]).0 == id && table[i].1.contains(x, y)
                    && forall|j: int| 0 <= j < i ==> !(#[trigger] table[j]).1.contains(x, y),
            None => forall|i: int| 0 <= i < table.len() ==> !(#[trigger] table[i]).1.contains(x, y),
        },
    decreases table.len(),
{
    if table.len() > 0 && !table[0].1.contains(x, y) {
        let rest = table.subrange(1, table.len() as int);
        lemma_first_hit_is_filed(rest, x, y);
        assert(forall|i: int| 0 <= i < rest.len() ==> rest[i] == table[i + 1]);
        match first_hit(rest, x, y) {
            Some(id) => {
                let i = choose|i: int|
                    0 <= i < rest.len() && (#[trigger] rest[i]).0 == id && rest[i].1.contains(x, y)
                        && forall|j: int| 0 <= j < i ==> !(#[trigger] rest[j]).1.contains(x, y);
                assert(table[i + 1].0 == id);
                assert forall|j: int| 0 <= j < i + 1 implies !(#[trigger] table[j]).1.contains(
                    x,
                    y,
                ) by {
                    if j > 0 {
                        assert(rest[j - 1] == table[j]);
                    }
                }
            },
            None => {
                assert forall|i: int| 0 <= i < table.len() implies !(#[trigger] table[i]).1.contains(
                    x,
                    y,
                ) by {
                    if i > 0 {
                        assert(rest[i - 1] == table[i]);
                    }
                }
            },
        }
    } else if table.len() > 0 {
        assert(table[0].0 == first_hit(table, x, y).unwrap());
    }
}

/// The hot widget of a frame is looked up in the hitboxes of the frame before.
/// A widget whose hitbox is drawn for the first time is therefore not hot in
/// that frame, wherever the pointer is; where it is the only hitbox of the
/// frame, it is hot in the next frame exactly if the pointer is inside it.
pub proof fn lemma_hot_follows_previous_frame(
    view: RendererView,
    id: u32,
    steps: Seq<Draw>,
    viewport: (i32, i32),
    now: Instant,
    next: Instant,
)
    requires
        !table_has(view.hitboxes, id),
    ensures
        ({
            let began = view.begin_frame(viewport, now);
            let drawn = draw_all(began.open_hitbox(), steps).close_hitbox(id);
            let filed = Hitbox { x: 0, y: 0, width: widest(steps), height: tallest(steps) };
            &&& began.hot_id != Some(id)
            &&& drawn.hot_id == began.hot_id
            &&& drawn.hitboxes == seq![(id, filed)]
            &&& drawn.begin_frame(viewport, next).hot_id == if filed.contains(
                view.mouse.x,
                view.mouse.y,
            ) {
                Some(id)
            } else {
                None
            }
        }),
{
    let began = view.begin_frame(viewport, now);
    assert(began.hot_id != Some(id)) by {
        lemma_first_hit_is_filed(view.hitboxes, view.mouse.x, view.mouse.y);
    }
    lemma_hitbox_extent(began, id, steps);
    lemma_draws_keep(began.open_hitbox(), steps);
    let drawn = draw_all(began.open_hitbox(), steps).close_hitbox(id);
    let filed = Hitbox { x: 0, y: 0, width: widest(steps), height: tallest(steps) };
    assert(began.hitboxes.len() == 0);
    assert(drawn.hitboxes == seq![(id, filed)]);
    assert(drawn.hitboxes[0] == (id, filed));
    assert(drawn.mouse.x == view.mouse.x && drawn.mouse.y == view.mouse.y);
    let rest = drawn.hitboxes.subrange(1, drawn.hitboxes.len() as int);
    assert(rest.len() == 0);
    assert(first_hit(rest, view.mouse.x, view.mouse.y).is_none());
}

/// What was typed or pressed and not consumed during a frame is gone when the
/// frame has ended, so the next frame starts with an empty queue.
pub proof fn lemma_input_ends_with_frame(
    view: RendererView,
    nanos: u128,
    viewport: (i32, i32),
    now: Instant,
)
    ensures
        view.end_frame(nanos).input == Seq::<char>::empty(),
        view.end_frame(nanos).keys.len() == 0,
        view.end_frame(nanos).begin_frame(viewport, now).input == Seq::<char>::empty(),
        view.end_frame(nanos).begin_frame(viewport, now).keys.len() == 0,
{
}

} // verus!
