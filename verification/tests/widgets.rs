use imui::color::Color;
use imui::draw::{DrawCommand, Rect};
use imui::font::{CharacterInfo, Font};
use imui::hitbox::Hitbox;
use imui::key::Key;
use imui::label::LabelStyle;
use imui::padding::Padding;
use imui::renderer::Renderer;
use imui::textinput::{apply_typing, caret_shows, TextInputState, TextInputStyle};

const A: CharacterInfo = CharacterInfo { bearing: (1, 10), size: (8, 10), advance: 640 };

fn font() -> Font {
    let mut font = Font::new(18);
    for c in "ab c".chars() {
        font.insert(c, A);
    }
    font
}

fn state(value: &str, last_typed_at: i64) -> TextInputState {
    TextInputState { value: value.to_string(), last_typed_at }
}

fn quads(commands: &[DrawCommand]) -> Vec<Rect> {
    commands
        .iter()
        .filter_map(|command| match command {
            DrawCommand::Quad { rect, .. } => Some(*rect),
            _ => None,
        })
        .collect()
}

#[test]
fn typing_appends_letters_digits_and_white_space() {
    let mut value = String::from("a");
    let changed = apply_typing(&mut value, &vec!['b', '1', ' ', '\t', 'é', '٣'], &vec![]);
    assert!(changed);
    assert_eq!(value, "ab1 \té٣");
}

#[test]
fn typing_drops_other_characters_but_counts_them() {
    let mut value = String::from("a");
    let changed = apply_typing(&mut value, &vec!['!', '-', '\u{8}', '.'], &vec![]);
    assert!(changed);
    assert_eq!(value, "a");
}

#[test]
fn backspace_removes_the_last_character() {
    let mut value = String::from("abc");
    let changed = apply_typing(&mut value, &vec![], &vec![Key::Backspace]);
    assert!(changed);
    assert_eq!(value, "ab");
    let changed = apply_typing(&mut value, &vec![], &vec![Key::Backspace, Key::A, Key::Backspace]);
    assert!(changed);
    assert_eq!(value, "");
}

#[test]
fn backspace_on_an_empty_value_still_counts() {
    let mut value = String::new();
    let changed = apply_typing(&mut value, &vec![], &vec![Key::Backspace, Key::Backspace]);
    assert!(changed);
    assert_eq!(value, "");
}

#[test]
fn other_keys_change_nothing() {
    let mut value = String::from("abc");
    let changed = apply_typing(&mut value, &vec![], &vec![Key::A, Key::Enter, Key::Escape]);
    assert!(!changed);
    assert_eq!(value, "abc");
    assert!(!apply_typing(&mut value, &vec![], &vec![]));
}

#[test]
fn input_is_applied_before_backspaces() {
    let mut value = String::from("a");
    let changed = apply_typing(&mut value, &vec!['b', 'c'], &vec![Key::Backspace]);
    assert!(changed);
    assert_eq!(value, "ab");
    let mut value = String::from("a");
    apply_typing(&mut value, &vec!['b'], &vec![Key::Backspace, Key::Backspace, Key::Backspace]);
    assert_eq!(value, "");
}

#[test]
fn caret_blinks_every_second() {
    assert!(caret_shows(1000, 1000));
    assert!(caret_shows(1499, 1000));
    assert!(!caret_shows(1500, 1000));
    assert!(!caret_shows(1999, 1000));
    assert!(caret_shows(2000, 1000));
    assert!(caret_shows(2499, 1000));
    assert!(!caret_shows(2500, 1000));
}

#[test]
fn caret_shows_when_the_clock_went_back() {
    assert!(caret_shows(0, 1));
    assert!(caret_shows(0, 700));
    assert!(caret_shows(i64::MIN, i64::MAX));
    assert!(!caret_shows(i64::MAX, i64::MIN));
}

#[test]
fn text_input_style_defaults_and_conversion() {
    let style = TextInputStyle::default();
    assert_eq!(style.background_color, None);
    assert_eq!(style.foreground_color, Color::black());
    assert_eq!(style.padding, Padding::from(0));
    assert_eq!(style.min_width, 0);
    let unit: TextInputStyle = ().into();
    assert_eq!(unit, style);
    let custom = TextInputStyle {
        background_color: Some(Color::new(1, 2, 3)),
        foreground_color: Color::white(),
        padding: (5, 3).into(),
        min_width: 200,
    };
    let label: LabelStyle = custom.into();
    assert_eq!(
        label,
        LabelStyle {
            background_color: Some(Color::new(1, 2, 3)),
            foreground_color: Color::white(),
            padding: Padding { left: 5, right: 5, top: 3, bottom: 3 },
            min_width: 200,
        }
    );
}

#[test]
fn new_state_holds_the_value() {
    let state = TextInputState::new("abc");
    assert_eq!(state.value, "abc");
    // The clock of the test machine stands well after 2020.
    assert!(state.last_typed_at > 1_577_836_800_000);
}

#[test]
fn idle_text_input_is_a_label_in_a_hitbox() {
    let mut r = Renderer::new(font());
    r.place_cursor(640, 640);
    r.push_input('b');
    let mut s = state("a", 17);
    r.text_input_at(4, &mut s, TextInputStyle::default(), 5000);
    assert_eq!(s.value, "a");
    assert_eq!(s.last_typed_at, 17);
    assert_eq!(r.consume_input(), vec!['b']);
    assert_eq!(r.hitbox_of(4), Some(Hitbox { x: 640, y: 640, width: 640, height: 1152 }));
    let commands = r.take_commands();
    assert_eq!(quads(&commands), vec![Rect { x: 640, y: 640, width: 640, height: 960 }]);
    assert_eq!(commands.len(), 2);
    assert_eq!(r.pos(), (640, 1600));
}

#[test]
fn active_text_input_takes_the_queue() {
    let mut r = Renderer::new(font());
    r.place_cursor(640, 640);
    r.set_active_id(Some(4));
    r.push_input('b');
    r.push_input('!');
    r.push_input(' ');
    r.push_key(Key::Backspace);
    r.push_key(Key::Enter);
    let mut s = state("a", 17);
    r.text_input_at(4, &mut s, TextInputStyle::default(), 5000);
    assert_eq!(s.value, "ab");
    assert_eq!(s.last_typed_at, 5000);
    assert!(r.consume_input().is_empty());
    assert!(r.consume_keys().is_empty());
    let commands = r.take_commands();
    // The label shows the value as it was when the frame began.
    assert_eq!(commands.len(), 3);
    assert_eq!(
        quads(&commands),
        vec![
            Rect { x: 640, y: 640, width: 640, height: 960 },
            Rect { x: 640 + 640 + 128, y: 640 - 96, width: 96, height: 1152 },
        ]
    );
    assert_eq!(r.pos(), (640, 1600));
}

#[test]
fn active_text_input_hides_the_caret_in_the_second_half() {
    let mut r = Renderer::new(font());
    r.place_cursor(640, 640);
    r.set_active_id(Some(4));
    let mut s = state("a", 1000);
    r.text_input_at(4, &mut s, TextInputStyle::default(), 1700);
    assert_eq!(s.last_typed_at, 1000);
    assert_eq!(quads(&r.take_commands()).len(), 1);
    r.place_cursor(640, 640);
    r.text_input_at(4, &mut s, TextInputStyle::default(), 2100);
    assert_eq!(quads(&r.take_commands()).len(), 2);
}

#[test]
fn typing_restarts_the_blinking() {
    let mut r = Renderer::new(font());
    r.place_cursor(640, 640);
    r.set_active_id(Some(4));
    r.push_input('!');
    let mut s = state("a", 1000);
    r.text_input_at(4, &mut s, TextInputStyle::default(), 1700);
    assert_eq!(s.value, "a");
    assert_eq!(s.last_typed_at, 1700);
    assert_eq!(quads(&r.take_commands()).len(), 2);
}

#[test]
fn another_widget_being_active_leaves_the_queue() {
    let mut r = Renderer::new(font());
    r.place_cursor(640, 640);
    r.set_active_id(Some(5));
    r.push_input('b');
    let mut s = state("a", 17);
    r.text_input_at(4, &mut s, TextInputStyle::default(), 17);
    assert_eq!(s.value, "a");
    assert_eq!(r.consume_input(), vec!['b']);
    assert_eq!(quads(&r.take_commands()).len(), 1);
}

#[test]
fn styled_text_input_centres_the_caret() {
    let mut r = Renderer::new(font());
    r.place_cursor(640, 640);
    r.set_active_id(Some(0));
    let style = TextInputStyle {
        background_color: Some(Color::new(180, 180, 180)),
        foreground_color: Color::black(),
        padding: (320, 192).into(),
        min_width: 12800,
    };
    let mut s = state("ab", 0);
    r.text_input_at(0, &mut s, style, 0);
    let commands = r.take_commands();
    assert_eq!(
        quads(&commands),
        vec![
            Rect { x: 640, y: 640, width: 13440, height: 1344 },
            Rect { x: 640 + 320 + 1280 + 128, y: 640 + 96, width: 96, height: 1152 },
        ]
    );
    assert_eq!(r.hitbox_of(0), Some(Hitbox { x: 640, y: 640, width: 13440, height: 1344 }));
}

#[test]
fn text_input_by_the_clock_applies_typing() {
    let mut r = Renderer::new(font());
    r.place_cursor(640, 640);
    r.set_active_id(Some(1));
    r.push_input('c');
    let mut s = state("ab", 0);
    r.text_input(1, &mut s, ());
    assert_eq!(s.value, "abc");
    assert!(s.last_typed_at > 0);
    // Typed just now: the caret shows.
    assert_eq!(quads(&r.take_commands()).len(), 2);
}

#[test]
fn two_fields_share_one_queue_first_come_first_served() {
    let mut r = Renderer::new(font());
    r.place_cursor(640, 640);
    r.set_active_id(Some(0));
    r.push_input('b');
    let mut first = state("a", 0);
    let mut second = state("a", 0);
    r.text_input_at(0, &mut first, TextInputStyle::default(), 0);
    r.set_active_id(Some(1));
    r.text_input_at(1, &mut second, TextInputStyle::default(), 0);
    assert_eq!(first.value, "ab");
    assert_eq!(second.value, "a");
}
