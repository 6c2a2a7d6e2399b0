//! Text fields: a label that takes what is typed while its widget is active.

use vstd::prelude::*;
use vstd::std_specs::convert::{FromSpecImpl, IntoSpec};
use chrono::{DateTime, Local};
use std::time::SystemTime;
use crate::color::Color;
use crate::key::Key;
use crate::label::LabelStyle;
use crate::model::RendererView;
use crate::padding::Padding;
use crate::renderer::Renderer;
use crate::units::{clamp, narrow, offset, pixels_of};

verus! {

/// Whether a character is a letter or a digit, as `char::is_alphanumeric`
/// decides it by the Unicode character database.
pub uninterp spec fn is_alphanumeric(c: char) -> bool;

/// Whether a character is white space, as `char::is_whitespace` decides it by
/// the Unicode character database.
pub uninterp spec fn is_whitespace(c: char) -> bool;

/// `char::is_alphanumeric` depends on the character alone.
pub assume_specification[ char::is_alphanumeric ](c: char) -> (yes: bool)
    ensures
        yes == is_alphanumeric(c),
;

/// `char::is_whitespace` depends on the character alone.
pub assume_specification[ char::is_whitespace ](c: char) -> (yes: bool)
    ensures
        yes == is_whitespace(c),
;

/// The time of the call in milliseconds since the start of 1970 (UTC): the
/// reading of `std::time::SystemTime::now`, turned into a local date and time
/// by `chrono::DateTime::<Local>::from` and counted by
/// `chrono::DateTime::timestamp_millis`. A clock that stands before 1970
/// gives a negative count. Nothing is claimed of the reading.
#[verifier::external_body]
fn now_millis() -> i64 {
    DateTime::<Local>::from(SystemTime::now()).timestamp_millis()
}

/// What a text field holds from frame to frame.
#[derive(Debug)]
pub struct TextInputState {
    pub value: String,
    /// When the value was last typed into, in milliseconds since the start of
    /// 1970.
    pub last_typed_at: i64,
}

impl TextInputState {
    /// A text field that holds `s` and counts as typed into just now.
    pub fn new(s: &str) -> (state: Self)
        ensures
            state.value@ == s@,
    {
        Self { value: s.to_owned(), last_typed_at: now_millis() }
    }
}

/// How a text field looks.
#[derive(Copy, Clone, Debug, PartialEq, Eq)]
pub struct TextInputStyle {
    /// The colour behind the text; the renderer's background where `None`.
    pub background_color: Option<Color>,
    pub foreground_color: Color,
    pub padding: Padding,
    /// The least width of the text's room, padding not counted.
    pub min_width: i32,
}

impl TextInputStyle {
    /// Black text on the renderer's background, no padding, no least width.
    pub open spec fn plain() -> TextInputStyle {
        TextInputStyle {
            background_color: None,
            foreground_color: Color::spec_black(),
            padding: Padding { left: 0, right: 0, top: 0, bottom: 0 },
            min_width: 0,
        }
    }

    /// The style of the label that shows the field's value.
    pub open spec fn label_style(self) -> LabelStyle {
        LabelStyle {
            background_color: self.background_color,
            foreground_color: self.foreground_color,
            padding: self.padding,
            min_width: self.min_width,
        }
    }
}

impl Default for TextInputStyle {
    fn default() -> (style: Self)
        ensures
            style == TextInputStyle::plain(),
    {
        Self {
            background_color: None,
            foreground_color: Color::black(),
            padding: Padding { left: 0, right: 0, top: 0, bottom: 0 },
            min_width: 0,
        }
    }
}

impl From<TextInputStyle> for LabelStyle {
    fn from(style: TextInputStyle) -> (label: LabelStyle) {
        LabelStyle {
            background_color: style.background_color,
            foreground_color: style.foreground_color,
            padding: style.padding,
            min_width: style.min_width,
        }
    }
}

impl FromSpecImpl<TextInputStyle> for LabelStyle {
    open spec fn obeys_from_spec() -> bool {
        true
    }

    open spec fn from_spec(style: TextInputStyle) -> LabelStyle {
        style.label_style()
    }
}

/// The unit value stands for the plain style.
impl From<()> for TextInputStyle {
    fn from(unit: ()) -> (style: TextInputStyle) {
        Default::default()
    }
}

impl FromSpecImpl<()> for TextInputStyle {
    open spec fn obeys_from_spec() -> bool {
        true
    }

    open spec fn from_spec(unit: ()) -> TextInputStyle {
        TextInputStyle::plain()
    }
}

/// Whether a text field takes a typed character: letters, digits and white
/// space are taken, everything else is dropped.
pub open spec fn accepts(c: char) -> bool {
    is_alphanumeric(c) || is_whitespace(c)
}

/// The number of Backspace presses among the keys.
pub open spec fn backspaces(keys: Seq<Key>) -> nat {
    keys.filter(|key: Key| key is Backspace).len()
}

/// A value after typing: first the accepted characters of `input` are
/// appended in order, then one character is taken off the end for each
/// Backspace among `keys`, as long as there is one.
pub open spec fn typed(value: Seq<char>, input: Seq<char>, keys: Seq<Key>) -> Seq<char> {
    let longer = value + input.filter(|c: char| accepts(c));
    if backspaces(keys) >= longer.len() {
        Seq::empty()
    } else {
        longer.take(longer.len() - backspaces(keys))
    }
}

/// Whether typing counts as a change that restarts the caret's blinking: any
/// typed character does, accepted or not, and so does any Backspace.
pub open spec fn changes(input: Seq<char>, keys: Seq<Key>) -> bool {
    input.len() > 0 || backspaces(keys) > 0
}

/// Whether the caret shows when `elapsed_ms` have passed since the value was
/// last typed into: it shows for the first half of every second, and whenever
/// the clock has gone backwards.
pub open spec fn caret_visible(elapsed_ms: int) -> bool {
    elapsed_ms < 0 || elapsed_ms % 1000 < 500
}

/// Half of an extent, rounded towards zero.
pub open spec fn half(extent: int) -> int {
    if extent >= 0 {
        extent / 2
    } else {
        -((-extent) / 2)
    }
}

/// The width of the caret: one and a half pixels.
pub const CARET_WIDTH: i32 = 96;

/// The gap between the end of the text and the caret: two pixels.
pub const CARET_GAP: i32 = 128;

impl RendererView {
    /// Where the caret of a text field opened at the cursor stands: behind the
    /// end of the text by the gap, and centred on the field's height.
    pub open spec fn caret_origin(self, value: Seq<char>, style: TextInputStyle) -> (i32, i32) {
        (
            clamp(self.label_text_end(value, style.label_style()) + CARET_GAP),
            clamp(
                self.cursor.1 + half(
                    self.label_extent(value, style.label_style()).1 - self.font.line_height(),
                ),
            ),
        )
    }

    /// A text field at the cursor: a hitbox around a label that shows `value`.
    /// While the field's widget is active, the input queue is taken, and the
    /// caret, where it shows, is drawn as a black rectangle one line high.
    pub open spec fn text_input(
        self,
        id: u32,
        value: Seq<char>,
        style: TextInputStyle,
        caret: bool,
    ) -> RendererView {
        let opened = self.open_hitbox();
        let labelled = opened.label(value, style.label_style());
        let origin = opened.caret_origin(value, style);
        let drawn = if self.active_id == Some(id) {
            let taken = RendererView { input: Seq::empty(), keys: Seq::empty(), ..labelled };
            if caret {
                taken.placed(origin.0, origin.1).rectangle(
                    (CARET_WIDTH, self.font.line_height()),
                    Color::spec_black(),
                ).with_cursor(taken.cursor)
            } else {
                taken
            }
        } else {
            labelled
        };
        drawn.close_hitbox(id)
    }
}

/// Applies what was typed to a value, and says whether anything was typed.
pub fn apply_typing(value: &mut String, input: &Vec<char>, keys: &Vec<Key>) -> (changed: bool)
    ensures
        final(value)@ == typed(old(value)@, input@, keys@),
        changed == changes(input@, keys@),
{
    let ghost accepted = |c: char| accepts(c);
    let ghost erasing = |key: Key| key is Backspace;
    let mut changed: bool = false;
    let mut i: usize = 0;
    assert(input@.take(0).filter(accepted) =~= Seq::empty()) by {
        reveal(Seq::filter);
    }
    assert(value@ + Seq::<char>::empty() =~= value@);
    while i < input.len()
        invariant
            i <= input.len(),
            accepted == |c: char| accepts(c),
            value@ == old(value)@ + input@.take(i as int).filter(accepted),
            changed == (i > 0),
        decreases input.len() - i,
    {
        let c: char = input[i];
        assert(input@.take(i as int + 1).drop_last() =~= input@.take(i as int));
        assert(input@.take(i as int + 1).last() == c);
        assert(input@.take(i as int + 1).filter(accepted) == if accepted(c) {
            input@.take(i as int).filter(accepted).push(c)
        } else {
            input@.take(i as int).filter(accepted)
        }) by {
            reveal(Seq::filter);
        }
        if c.is_alphanumeric() || c.is_whitespace() {
            value.push(c);
            assert(value@ =~= old(value)@ + input@.take(i as int + 1).filter(accepted));
        }
        changed = true;
        i = i + 1;
    }
    assert(input@.take(input@.len() as int) =~= input@);
    let ghost longer = value@;
    let mut erased: usize = 0;
    let mut k: usize = 0;
    assert(keys@.take(0).filter(erasing) =~= Seq::empty()) by {
        reveal(Seq::filter);
    }
    assert(longer.take(longer.len() as int) =~= longer);
    while k < keys.len()
        invariant
            k <= keys.len(),
            erasing == |key: Key| key is Backspace,
            erased == keys@.take(k as int).filter(erasing).len(),
            erased <= k,
            value@ == if erased >= longer.len() {
                Seq::<char>::empty()
            } else {
                longer.take(longer.len() - erased)
            },
            changed == (input.len() > 0 || erased > 0),
        decreases keys.len() - k,
    {
        assert(keys@.take(k as int + 1).drop_last() =~= keys@.take(k as int));
        assert(keys@.take(k as int + 1).last() == keys@[k as int]);
        assert(keys@.take(k as int + 1).filter(erasing) == if erasing(keys@[k as int]) {
            keys@.take(k as int).filter(erasing).push(keys@[k as int])
        } else {
            keys@.take(k as int).filter(erasing)
        }) by {
            reveal(Seq::filter);
        }
        match keys[k] {
            Key::Backspace => {
                let _ = value.pop();
                erased = erased + 1;
                changed = true;
                assert(value@ =~= if erased >= longer.len() {
                    Seq::<char>::empty()
                } else {
                    longer.take(longer.len() - erased)
                });
            },
            _ => {},
        }
        k = k + 1;
    }
    assert(keys@.take(keys@.len() as int) =~= keys@);
    changed
}

/// Whether the caret shows at `now_ms` for a value last typed into at
/// `last_typed_at`.
pub fn caret_shows(now_ms: i64, last_typed_at: i64) -> (shows: bool)
    ensures
        shows == caret_visible(now_ms - last_typed_at),
{
    let elapsed: i128 = now_ms as i128 - last_typed_at as i128;
    if elapsed < 0 {
        true
    } else {
        elapsed % 1000 < 500
    }
}

impl Renderer {
    /// Draws a text field by the clock: see [`Renderer::text_input_at`], which
    /// this calls with the time of the call, whatever it is.
    pub fn text_input<T: Into<TextInputStyle>>(
        &mut self,
        id: u32,
        state: &mut TextInputState,
        style: T,
    )
        requires
            old(self)@.font.covers(old(state).value@),
        ensures
            T::obeys_into_spec() ==> exists|now_ms: i64|
                old(self)@.text_input_outcome(
                    *old(state),
                    id,
                    style.into_spec(),
                    now_ms,
                    final(self)@,
                    *final(state),
                ),
    {
        let now_ms: i64 = now_millis();
        self.text_input_at(id, state, style.into(), now_ms);
    }

    /// Draws a text field at the cursor, at the time `now_ms`. The field shows
    /// the value it had when the frame began. While its widget is active it
    /// takes the frame's input: what was typed is applied to the value, and
    /// the time of typing is noted. The caret blinks from that time on.
    pub fn text_input_at(
        &mut self,
        id: u32,
        state: &mut TextInputState,
        style: TextInputStyle,
        now_ms: i64,
    )
        requires
            old(self)@.font.covers(old(state).value@),
        ensures
            old(self)@.text_input_outcome(
                *old(state),
                id,
                style,
                now_ms,
                final(self)@,
                *final(state),
            ),
    {
        let is_active: bool = self.is_active(id);
        self.open_hitbox();
        let (_, y) = self.pos();
        let (_, height, text_end_x) = self.label_styled(
            state.value.as_str(),
            LabelStyle {
                background_color: style.background_color,
                foreground_color: style.foreground_color,
                padding: style.padding,
                min_width: style.min_width,
            },
        );
        if is_active {
            let input: Vec<char> = self.consume_input();
            let keys: Vec<Key> = self.consume_keys();
            let changed: bool = apply_typing(&mut state.value, &input, &keys);
            if changed {
                state.last_typed_at = now_ms;
            }
            let cursor_height: i32 = pixels_of(self.font().size());
            if caret_shows(now_ms, state.last_typed_at) {
                let spare: i64 = height as i64 - cursor_height as i64;
                let lift: i64 = if spare >= 0 {
                    spare / 2
                } else {
                    -((-spare) / 2)
                };
                let before = self.place_cursor(offset(text_end_x, CARET_GAP), narrow(y as i64 + lift));
                self.rectangle((CARET_WIDTH, cursor_height), Color::black());
                self.restore_cursor(before);
            }
        }
        self.close_hitbox(id);
    }
}

impl RendererView {
    /// What drawing a text field at the time `now_ms` does to the renderer and
    /// to the field's state.
    pub open spec fn text_input_outcome(
        self,
        state: TextInputState,
        id: u32,
        style: TextInputStyle,
        now_ms: i64,
        after: RendererView,
        state_after: TextInputState,
    ) -> bool {
        if self.active_id == Some(id) {
            &&& state_after.value@ == typed(state.value@, self.input, self.keys)
            &&& state_after.last_typed_at == if changes(self.input, self.keys) {
                now_ms
            } else {
                state.last_typed_at
            }
            &&& after == self.text_input(
                id,
                state.value@,
                style,
                caret_visible(now_ms - state_after.last_typed_at),
            )
        } else {
            &&& state_after.value@ == state.value@
            &&& state_after.last_typed_at == state.last_typed_at
            &&& after == self.text_input(id, state.value@, style, false)
        }
    }
}

} // verus!
