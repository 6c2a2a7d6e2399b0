use imui::application::{
    settle, Application, ApplicationWrapper, ControlFlow, InputEvent, MouseButton, Reaction,
    WindowConfig,
};
use imui::color::Color;
use imui::draw::DrawCommand;
use imui::font::Font;
use imui::input::{Modifiers, MouseInfo};
use imui::key::Key;
use imui::renderer::Renderer;

fn renderer() -> Renderer {
    Renderer::new(Font::new(18))
}

#[derive(Default)]
struct Quiet {
    frames: u32,
}

impl Application for Quiet {
    fn render(&mut self, r: &mut Renderer) {
        self.frames += 1;
        r.hitbox(1, |r, _, _| r.rectangle((10, 10), Color::white()));
    }
}

#[derive(Default)]
struct Recorder {
    heard: Vec<String>,
    input_seen_in_render: Vec<char>,
}

impl Application for Recorder {
    fn init(&mut self, r: &mut Renderer) {
        r.set_background_color(Color::new(230, 230, 230));
    }

    fn render(&mut self, r: &mut Renderer) {
        self.heard.push(format!("render {:?}", r.get_viewport()));
        self.input_seen_in_render = r.consume_input();
        r.push_input('z');
    }

    fn window(&mut self, config: WindowConfig) -> WindowConfig {
        WindowConfig { decorations: false, always_on_top: true, ..config }
    }

    fn on_text_input(&mut self, c: char, _r: &mut Renderer) -> Option<ControlFlow> {
        self.heard.push(format!("text {}", c));
        None
    }

    fn on_key_down(&mut self, key: Key, _r: &mut Renderer) -> Option<ControlFlow> {
        self.heard.push(format!("down {:?}", key));
        if key == Key::Escape {
            Some(ControlFlow::Exit)
        } else {
            None
        }
    }

    fn on_key_up(&mut self, key: Key, _r: &mut Renderer) -> Option<ControlFlow> {
        self.heard.push(format!("up {:?}", key));
        Some(ControlFlow::Wait)
    }

    fn on_mouse_down(&mut self, left: bool, x: i32, y: i32, r: &mut Renderer) -> Option<ControlFlow> {
        self.heard.push(format!("mouse {} {} {}", left, x, y));
        if left {
            let hit = r.get_hit(x, y);
            r.set_active_id(hit);
        }
        None
    }
}

#[test]
fn settle_falls_back_to_polling() {
    assert_eq!(settle(None), ControlFlow::Poll);
    assert_eq!(settle(Some(ControlFlow::Exit)), ControlFlow::Exit);
    assert_eq!(settle(Some(ControlFlow::Wait)), ControlFlow::Wait);
    assert_eq!(settle(Some(ControlFlow::Poll)), ControlFlow::Poll);
}

#[test]
fn window_config_defaults() {
    assert_eq!(
        WindowConfig::default(),
        WindowConfig { position: None, inner_size: None, decorations: true, always_on_top: false }
    );
}

#[test]
fn close_request_ends_the_loop() {
    let mut r = renderer();
    assert_eq!(r.note_event(InputEvent::CloseRequested), Reaction::Flow { flow: ControlFlow::Exit });
}

#[test]
fn resize_and_unknown_events_poll() {
    let mut r = renderer();
    assert_eq!(r.note_event(InputEvent::Resized), Reaction::Flow { flow: ControlFlow::Poll });
    assert_eq!(r.note_event(InputEvent::Other), Reaction::Flow { flow: ControlFlow::Poll });
}

#[test]
fn cursor_movement_updates_the_pointer() {
    let mut r = renderer();
    r.set_mouse(MouseInfo { x: 0, y: 0, lmouseclick: true, rmouseclick: false });
    let reaction = r.note_event(InputEvent::CursorMoved { x: 30, y: 40 });
    assert_eq!(reaction, Reaction::Flow { flow: ControlFlow::Poll });
    assert_eq!(r.mouse(), MouseInfo { x: 30, y: 40, lmouseclick: true, rmouseclick: false });
}

#[test]
fn released_buttons_set_their_own_click_flag() {
    let mut r = renderer();
    let reaction = r.note_event(InputEvent::MouseInput { pressed: false, button: MouseButton::Left });
    assert_eq!(reaction, Reaction::Flow { flow: ControlFlow::Poll });
    assert_eq!(r.mouse(), MouseInfo { x: 0, y: 0, lmouseclick: true, rmouseclick: false });
    r.note_event(InputEvent::MouseInput { pressed: false, button: MouseButton::Right });
    assert_eq!(r.mouse(), MouseInfo { x: 0, y: 0, lmouseclick: true, rmouseclick: true });
}

#[test]
fn other_released_buttons_set_no_flag() {
    let mut r = renderer();
    r.note_event(InputEvent::MouseInput { pressed: false, button: MouseButton::Middle });
    r.note_event(InputEvent::MouseInput { pressed: false, button: MouseButton::Other(7) });
    assert_eq!(r.mouse(), MouseInfo { x: 0, y: 0, lmouseclick: false, rmouseclick: false });
}

#[test]
fn pressed_button_is_passed_on_with_the_pointer() {
    let mut r = renderer();
    r.note_event(InputEvent::CursorMoved { x: 30, y: 40 });
    assert_eq!(
        r.note_event(InputEvent::MouseInput { pressed: true, button: MouseButton::Left }),
        Reaction::MouseDown { left: true, x: 30, y: 40 }
    );
    assert_eq!(
        r.note_event(InputEvent::MouseInput { pressed: true, button: MouseButton::Right }),
        Reaction::MouseDown { left: false, x: 30, y: 40 }
    );
    assert_eq!(
        r.note_event(InputEvent::MouseInput { pressed: true, button: MouseButton::Other(3) }),
        Reaction::MouseDown { left: false, x: 30, y: 40 }
    );
    assert_eq!(r.mouse(), MouseInfo { x: 30, y: 40, lmouseclick: false, rmouseclick: false });
}

#[test]
fn modifiers_are_kept() {
    let mut r = renderer();
    let held = Modifiers { shift: true, ctrl: false, alt: true, logo: false };
    assert_eq!(
        r.note_event(InputEvent::ModifiersChanged { modifiers: held }),
        Reaction::Flow { flow: ControlFlow::Poll }
    );
    assert_eq!(r.modifiers(), held);
}

#[test]
fn characters_are_queued_and_passed_on() {
    let mut r = renderer();
    assert_eq!(r.note_event(InputEvent::ReceivedCharacter { c: 'x' }), Reaction::TextInput { c: 'x' });
    assert_eq!(r.note_event(InputEvent::ReceivedCharacter { c: 'y' }), Reaction::TextInput { c: 'y' });
    assert_eq!(r.consume_input(), vec!['x', 'y']);
}

#[test]
fn pressed_keys_are_queued_released_keys_are_not() {
    let mut r = renderer();
    assert_eq!(
        r.note_event(InputEvent::KeyboardInput { key: Some(Key::A), pressed: true }),
        Reaction::KeyDown { key: Key::A }
    );
    assert_eq!(
        r.note_event(InputEvent::KeyboardInput { key: Some(Key::A), pressed: false }),
        Reaction::KeyUp { key: Key::A }
    );
    assert_eq!(
        r.note_event(InputEvent::KeyboardInput { key: None, pressed: true }),
        Reaction::Flow { flow: ControlFlow::Poll }
    );
    assert_eq!(r.consume_keys(), vec![Key::A]);
}

#[test]
fn cleared_events_call_for_a_frame() {
    let mut r = renderer();
    assert_eq!(
        r.note_event(InputEvent::MainEventsCleared { viewport: (800, 600) }),
        Reaction::Render { viewport: (800, 600) }
    );
    assert_eq!(r.get_viewport(), (0, 0));
}

#[test]
fn default_hooks_do_nothing() {
    let mut app = Quiet::default();
    let mut r = renderer();
    app.init(&mut r);
    assert_eq!(app.window(WindowConfig::default()), WindowConfig::default());
    assert_eq!(app.on_text_input('a', &mut r), None);
    assert_eq!(app.on_key_down(Key::A, &mut r), None);
    assert_eq!(app.on_key_up(Key::A, &mut r), None);
    assert_eq!(app.on_mouse_down(true, 1, 2, &mut r), None);
    assert_eq!(r.background_color(), Color::black());
    for event in [
        InputEvent::ReceivedCharacter { c: 'a' },
        InputEvent::KeyboardInput { key: Some(Key::Escape), pressed: true },
        InputEvent::KeyboardInput { key: Some(Key::Escape), pressed: false },
        InputEvent::MouseInput { pressed: true, button: MouseButton::Left },
    ] {
        assert_eq!(app.handle_event(&mut r, event), ControlFlow::Poll);
    }
    assert_eq!(app.frames, 0);
}

#[test]
fn call_render_runs_one_whole_frame() {
    let mut app = Quiet::default();
    let mut r = renderer();
    r.set_background_color(Color::new(1, 2, 3));
    r.set_mouse(MouseInfo { x: 5, y: 5, lmouseclick: true, rmouseclick: true });
    r.push_input('a');
    r.push_key(Key::A);
    app.call_render(&mut r, (800, 600));
    assert_eq!(app.frames, 1);
    assert_eq!(r.get_viewport(), (800, 600));
    assert_eq!(r.mouse(), MouseInfo { x: 5, y: 5, lmouseclick: false, rmouseclick: false });
    assert!(r.consume_input().is_empty());
    assert!(r.consume_keys().is_empty());
    assert_eq!(r.hot_id(), None);
    let commands = r.take_commands();
    assert_eq!(commands.len(), 2);
    assert_eq!(commands[0], DrawCommand::Clear { color: Color::new(1, 2, 3) });
    app.call_render(&mut r, (800, 600));
    assert_eq!(r.hot_id(), Some(1));
    assert_eq!(app.frames, 2);
}

#[test]
fn handle_event_routes_to_the_hooks() {
    let mut app = Recorder::default();
    let mut r = renderer();
    app.init(&mut r);
    assert_eq!(r.background_color(), Color::new(230, 230, 230));
    assert_eq!(app.handle_event(&mut r, InputEvent::CursorMoved { x: 3, y: 4 }), ControlFlow::Poll);
    assert_eq!(
        app.handle_event(&mut r, InputEvent::MouseInput { pressed: true, button: MouseButton::Left }),
        ControlFlow::Poll
    );
    assert_eq!(
        app.handle_event(&mut r, InputEvent::ReceivedCharacter { c: 'q' }),
        ControlFlow::Poll
    );
    assert_eq!(
        app.handle_event(&mut r, InputEvent::KeyboardInput { key: Some(Key::A), pressed: true }),
        ControlFlow::Poll
    );
    assert_eq!(
        app.handle_event(&mut r, InputEvent::KeyboardInput { key: Some(Key::A), pressed: false }),
        ControlFlow::Wait
    );
    assert_eq!(
        app.handle_event(&mut r, InputEvent::KeyboardInput { key: Some(Key::Escape), pressed: true }),
        ControlFlow::Exit
    );
    assert_eq!(app.handle_event(&mut r, InputEvent::CloseRequested), ControlFlow::Exit);
    assert_eq!(
        app.heard,
        vec!["mouse true 3 4", "text q", "down A", "up A", "down Escape"]
    );
    assert_eq!(r.consume_keys(), vec![Key::A, Key::Escape]);
    assert_eq!(r.consume_input(), vec!['q']);
}

#[test]
fn handle_event_draws_a_frame_when_events_are_cleared() {
    let mut app = Recorder::default();
    let mut r = renderer();
    app.handle_event(&mut r, InputEvent::ReceivedCharacter { c: 'q' });
    let flow = app.handle_event(&mut r, InputEvent::MainEventsCleared { viewport: (800, 600) });
    assert_eq!(flow, ControlFlow::Poll);
    assert_eq!(app.heard, vec!["text q", "render (800, 600)"]);
    assert_eq!(app.input_seen_in_render, vec!['q']);
    // What the application queued while drawing is gone with the frame.
    assert!(r.consume_input().is_empty());
}

#[test]
fn a_click_activates_the_widget_under_the_pointer() {
    let mut app = Recorder::default();
    let mut r = renderer();
    r.hitbox(6, |r, _, _| r.rectangle((50, 50), Color::white()));
    app.handle_event(&mut r, InputEvent::CursorMoved { x: 10, y: 10 });
    app.handle_event(&mut r, InputEvent::MouseInput { pressed: true, button: MouseButton::Left });
    assert_eq!(r.active_id(), Some(6));
    app.handle_event(&mut r, InputEvent::MouseInput { pressed: true, button: MouseButton::Right });
    assert_eq!(r.active_id(), Some(6));
    app.handle_event(&mut r, InputEvent::CursorMoved { x: 100, y: 100 });
    app.handle_event(&mut r, InputEvent::MouseInput { pressed: true, button: MouseButton::Left });
    assert_eq!(r.active_id(), None);
}
