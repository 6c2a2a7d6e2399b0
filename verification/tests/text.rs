use imui::color::Color;
use imui::draw::{DrawCommand, Rect};
use imui::font::{CharacterInfo, Font};
use imui::hitbox::Hitbox;
use imui::label::LabelStyle;
use imui::padding::Padding;
use imui::renderer::Renderer;
use imui::strings::{push_decimal, push_decimal_4};

const A: CharacterInfo = CharacterInfo { bearing: (1, 10), size: (8, 10), advance: 640 };
const B: CharacterInfo = CharacterInfo { bearing: (0, 14), size: (9, 14), advance: 700 };
const P: CharacterInfo = CharacterInfo { bearing: (1, 7), size: (8, 10), advance: 640 };

fn font() -> Font {
    let mut font = Font::new(18);
    font.insert('a', A);
    font.insert('b', B);
    font.insert('p', P);
    font
}

fn readout_font() -> Font {
    let mut font = Font::new(18);
    let digit = CharacterInfo { bearing: (0, 12), size: (8, 12), advance: 576 };
    for c in "0123456789 fps".chars() {
        font.insert(c, digit);
    }
    font
}

fn glyph(c: char, x: i32, y: i32, width: i32, height: i32) -> DrawCommand {
    DrawCommand::Glyph { c, rect: Rect { x, y, width, height }, color: Color::black() }
}

#[test]
fn font_holds_what_was_inserted() {
    let font = font();
    assert_eq!(font.size(), 18);
    assert_eq!(font.get_info('a'), Some(&A));
    assert_eq!(font.get_info('b'), Some(&B));
    assert_eq!(font.get_info('c'), None);
    assert!(font.has_glyphs("abba"));
    assert!(font.has_glyphs(""));
    assert!(!font.has_glyphs("abc"));
}

#[test]
fn font_insert_replaces_a_glyph() {
    let mut font = font();
    font.insert('a', B);
    assert_eq!(font.get_info('a'), Some(&B));
}

#[test]
fn glyph_metrics_in_layout_units() {
    assert_eq!(A.pen_step(), 640);
    assert_eq!(B.pen_step(), 640);
    let back = CharacterInfo { bearing: (0, 0), size: (0, 0), advance: -1 };
    assert_eq!(back.pen_step(), -64);
    assert_eq!(A.glyph_quad(18, 100, 200), Rect { x: 164, y: 712, width: 512, height: 640 });
    assert_eq!(B.glyph_quad(18, 740, 200), Rect { x: 740, y: 456, width: 576, height: 896 });
    assert_eq!(A.glyph_reach(18, 200), 1152);
    assert_eq!(P.glyph_reach(18, 200), 1344);
}

#[test]
fn text_size_sums_whole_pixel_advances() {
    let r = Renderer::new(font());
    assert_eq!(r.calculate_text_size("ab"), (1280, 1152));
    assert_eq!(r.calculate_text_size(""), (0, 1152));
    assert_eq!(r.calculate_text_size("aaa"), (1920, 1152));
}

#[test]
fn text_places_one_glyph_after_another() {
    let mut r = Renderer::new(font());
    r.place_cursor(100, 200);
    r.text("ab", Color::black());
    assert_eq!(
        r.take_commands(),
        vec![glyph('a', 164, 712, 512, 640), glyph('b', 740, 456, 576, 896)]
    );
    assert_eq!(r.pos(), (100, 1352));
}

#[test]
fn text_in_a_row_advances_by_its_width() {
    let mut r = Renderer::new(font());
    r.row(|r| {
        r.text("ab", Color::black());
        assert_eq!(r.pos(), (1280, 0));
        r.text("p", Color::black());
        assert_eq!(r.pos(), (1920, 0));
    });
    assert_eq!(r.pos(), (0, 1344));
}

#[test]
fn empty_text_takes_no_room() {
    let mut r = Renderer::new(font());
    r.text("", Color::black());
    assert_eq!(r.pos(), (0, 0));
    assert!(r.take_commands().is_empty());
}

#[test]
fn text_grows_an_open_hitbox() {
    let mut r = Renderer::new(font());
    r.hitbox(3, |r, _, _| r.text("ab", Color::black()));
    assert_eq!(r.hitbox_of(3), Some(Hitbox { x: 0, y: 0, width: 1280, height: 1152 }));
}

#[test]
fn label_style_defaults() {
    let style = LabelStyle::default();
    assert_eq!(style.background_color, None);
    assert_eq!(style.foreground_color, Color::black());
    assert_eq!(style.padding, Padding { left: 0, right: 0, top: 0, bottom: 0 });
    assert_eq!(style.min_width, 0);
    let unit: LabelStyle = ().into();
    assert_eq!(unit, style);
}

#[test]
fn plain_label_draws_background_then_text() {
    let mut r = Renderer::new(font());
    r.set_background_color(Color::new(9, 9, 9));
    r.place_cursor(0, 500);
    let extent = r.label("a", ());
    assert_eq!(extent, (640, 960, 640));
    assert_eq!(
        r.take_commands(),
        vec![
            DrawCommand::Quad {
                rect: Rect { x: 0, y: 500, width: 640, height: 960 },
                color: Color::new(9, 9, 9)
            },
            glyph('a', 64, 756, 512, 640),
        ]
    );
    assert_eq!(r.pos(), (0, 1460));
}

#[test]
fn styled_label_pads_and_widens() {
    let mut r = Renderer::new(font());
    r.place_cursor(640, 640);
    let style = LabelStyle {
        background_color: Some(Color::new(180, 180, 180)),
        foreground_color: Color::white(),
        padding: (320, 192).into(),
        min_width: 12800,
    };
    let extent = r.label("ab", style);
    assert_eq!(extent, (13440, 1344, 2240));
    assert_eq!(
        r.take_commands(),
        vec![
            DrawCommand::Quad {
                rect: Rect { x: 640, y: 640, width: 13440, height: 1344 },
                color: Color::new(180, 180, 180)
            },
            DrawCommand::Glyph {
                c: 'a',
                rect: Rect { x: 1024, y: 1088, width: 512, height: 640 },
                color: Color::white()
            },
            DrawCommand::Glyph {
                c: 'b',
                rect: Rect { x: 1600, y: 832, width: 576, height: 896 },
                color: Color::white()
            },
        ]
    );
    assert_eq!(r.pos(), (640, 1984));
}

#[test]
fn label_styled_matches_label() {
    let style = LabelStyle { min_width: 100, ..LabelStyle::default() };
    let mut a = Renderer::new(font());
    let mut b = Renderer::new(font());
    a.place_cursor(10, 300);
    b.place_cursor(10, 300);
    assert_eq!(a.label("ab", style), b.label_styled("ab", style));
    assert_eq!(a.take_commands(), b.take_commands());
    assert_eq!(a.pos(), b.pos());
}

#[test]
fn label_text_above_the_top_edge_counts_from_the_bottom() {
    let mut r = Renderer::new(font());
    r.next_frame((64000, 38400));
    r.label("a", ());
    let commands = r.take_commands();
    assert_eq!(commands[1], glyph('a', 64, 38400 - 256 + 512, 512, 640));
}

#[test]
fn label_in_a_row_counts_both_its_shapes() {
    let mut r = Renderer::new(font());
    r.place_cursor(0, 1000);
    r.row(|r| {
        let extent = r.label("a", ());
        assert_eq!(extent, (640, 960, 640));
        assert_eq!(r.pos(), (640, 1000));
    });
    // The text run is 1152 high, the background only 960.
    assert_eq!(r.pos(), (0, 2152));
}

#[test]
fn decimal_digits() {
    let mut s = String::from("n=");
    push_decimal(&mut s, 0);
    assert_eq!(s, "n=0");
    let mut s = String::new();
    push_decimal(&mut s, 7);
    push_decimal(&mut s, 1203);
    push_decimal(&mut s, u32::MAX);
    assert_eq!(s, "712034294967295");
}

#[test]
fn decimal_padded_to_four() {
    for (n, text) in [
        (0u32, "   0"),
        (9, "   9"),
        (10, "  10"),
        (59, "  59"),
        (100, " 100"),
        (999, " 999"),
        (1000, "1000"),
        (123456, "123456"),
    ] {
        let mut s = String::new();
        push_decimal_4(&mut s, n);
        assert_eq!(s, text);
        assert_eq!(s, format!("{:4}", n));
    }
}

#[test]
fn show_fps_writes_the_readout_at_the_right_edge() {
    let mut r = Renderer::new(readout_font());
    r.next_frame((64000, 38400));
    r.end_frame(16_666_667);
    r.place_cursor(10, 20);
    assert!(r.show_fps());
    assert_eq!(r.pos(), (10, 20));
    let commands = r.take_commands();
    let text: String = commands
        .iter()
        .map(|command| match command {
            DrawCommand::Glyph { c, .. } => *c,
            _ => '?',
        })
        .collect();
    assert_eq!(text, "  59 fps");
    assert_eq!(
        commands[0],
        DrawCommand::Glyph {
            c: ' ',
            rect: Rect { x: 64000 - 5120, y: 384, width: 512, height: 768 },
            color: Color::black()
        }
    );
    assert_eq!(
        commands[7],
        DrawCommand::Glyph {
            c: 's',
            rect: Rect { x: 64000 - 5120 + 7 * 576, y: 384, width: 512, height: 768 },
            color: Color::black()
        }
    );
}

#[test]
fn show_fps_before_the_first_frame_shows_zero() {
    let mut r = Renderer::new(readout_font());
    assert!(r.show_fps());
    assert_eq!(r.take_commands().len(), 8);
}

#[test]
fn show_fps_without_glyphs_draws_nothing() {
    let mut r = Renderer::new(font());
    r.place_cursor(10, 20);
    assert!(!r.show_fps());
    assert!(r.take_commands().is_empty());
    assert_eq!(r.pos(), (10, 20));
}

#[test]
fn change_font_size_swaps_the_font() {
    let mut r = Renderer::new(font());
    assert_eq!(r.font().size(), 18);
    let mut bigger = Font::new(30);
    bigger.insert('a', A);
    r.change_font_size(bigger);
    assert_eq!(r.font().size(), 30);
    assert_eq!(r.calculate_text_size("a"), (640, 1920));
    assert!(!r.font().has_glyphs("b"));
}
