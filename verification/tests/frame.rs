use imui::color::Color;
use imui::draw::DrawCommand;
use imui::font::Font;
use imui::key::Key;
use imui::renderer::Renderer;
use std::time::{Duration, Instant};

fn renderer() -> Renderer {
    Renderer::new(Font::new(18))
}

#[test]
fn unconsumed_input_is_gone_after_the_frame() {
    let mut r = renderer();
    r.begin_frame((100, 100));
    r.push_input('a');
    r.push_input('b');
    r.push_key(Key::Enter);
    r.end_frame(1000);
    r.begin_frame((100, 100));
    assert_eq!(r.consume_input(), Vec::<char>::new());
    assert_eq!(r.consume_keys(), Vec::<Key>::new());
    r.push_input('c');
    assert_eq!(r.consume_input(), vec!['c']);
}

#[test]
fn done_empties_the_queue_too() {
    let mut r = renderer();
    r.push_input('a');
    r.push_key(Key::A);
    r.done();
    assert!(r.consume_input().is_empty());
    assert!(r.consume_keys().is_empty());
}

#[test]
fn input_is_consumed_at_most_once() {
    let mut r = renderer();
    r.push_input('h');
    r.push_input('i');
    r.push_key(Key::Backspace);
    r.push_key(Key::Tab);
    assert_eq!(r.consume_input(), vec!['h', 'i']);
    assert_eq!(r.consume_input(), Vec::<char>::new());
    assert_eq!(r.consume_keys(), vec![Key::Backspace, Key::Tab]);
    assert_eq!(r.consume_keys(), Vec::<Key>::new());
}

#[test]
fn input_survives_the_start_of_a_frame() {
    let mut r = renderer();
    r.push_input('a');
    r.begin_frame((100, 100));
    assert_eq!(r.consume_input(), vec!['a']);
}

#[test]
fn fps_is_zero_before_the_first_frame() {
    let r = renderer();
    assert_eq!(r.fps(), 0);
}

#[test]
fn fps_is_a_billion_over_the_frame_time() {
    let mut r = renderer();
    r.end_frame(16_666_667);
    assert_eq!(r.fps(), 59);
    r.end_frame(1_000_000);
    assert_eq!(r.fps(), 1000);
    r.end_frame(1_000_000_000);
    assert_eq!(r.fps(), 1);
    r.end_frame(1_000_000_001);
    assert_eq!(r.fps(), 0);
    r.end_frame(1);
    assert_eq!(r.fps(), 1_000_000_000);
    r.end_frame(0);
    assert_eq!(r.fps(), 0);
}

#[test]
fn frame_time_is_kept_in_thirty_two_bits() {
    let mut r = renderer();
    // 2^32 + 1_000_000 nanoseconds leave 1_000_000 in 32 bits.
    r.end_frame(4_294_967_296 + 1_000_000);
    assert_eq!(r.fps(), 1000);
}

#[test]
fn next_frame_resets_cursor_and_viewport_only() {
    let mut r = renderer();
    r.hitbox(1, |r, _, _| r.rectangle((10, 10), Color::white()));
    r.next_frame((320, 200));
    assert_eq!(r.pos(), (0, 0));
    assert_eq!(r.get_viewport(), (320, 200));
    assert_eq!(r.get_hit(1, 1), Some(1));
    assert_eq!(r.hot_id(), None);
}

#[test]
fn commands_stay_until_they_are_taken() {
    let mut r = renderer();
    r.clear();
    r.begin_frame((100, 100));
    r.rectangle((1, 1), Color::white());
    r.end_frame(5);
    let commands = r.take_commands();
    assert_eq!(commands.len(), 2);
    assert_eq!(commands[0], DrawCommand::Clear { color: Color::black() });
    assert!(r.take_commands().is_empty());
}

#[test]
fn a_frame_counts_from_the_reading_it_was_begun_at() {
    let mut r = renderer();
    let t0 = Instant::now() + Duration::from_secs(3);
    r.next_frame_at((320, 200), t0);
    assert_eq!(r.frame_start(), t0);
    assert_eq!(r.get_viewport(), (320, 200));
    r.rectangle((1, 1), Color::white());
    r.end_frame(7);
    assert_eq!(r.frame_start(), t0);
    let t1 = t0 + Duration::from_secs(1);
    r.begin_frame_at((100, 100), t1);
    assert_eq!(r.frame_start(), t1);
    assert_eq!(r.pos(), (0, 0));
}

#[test]
fn frames_by_the_clock_count_from_the_call() {
    let before = Instant::now();
    let mut r = renderer();
    assert!(r.frame_start() >= before);
    let later = Instant::now();
    r.next_frame((1, 1));
    assert!(r.frame_start() >= later);
    let latest = Instant::now();
    r.begin_frame((1, 1));
    assert!(r.frame_start() >= latest);
}

#[test]
fn done_records_the_time_since_the_frame_began() {
    let mut r = renderer();
    let now = Instant::now();
    if let Some(past) = now.checked_sub(Duration::from_millis(1)) {
        r.next_frame_at((1, 1), past);
        r.done();
        // At least a millisecond has passed: at most a thousand frames a second.
        assert!(r.fps() <= 1000);
    }
}
