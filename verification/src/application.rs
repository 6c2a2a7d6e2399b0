//! The application's side of a frame: the hooks an application implements,
//! and what each event of the windowing system leads to.

use vstd::prelude::*;
use crate::input::{Modifiers, MouseInfo};
use crate::key::Key;
use crate::model::RendererView;
use crate::renderer::Renderer;

verus! {

/// What the event loop is to do after an event.
#[derive(Copy, Clone, Debug, PartialEq, Eq, Structural)]
pub enum ControlFlow {
    /// Go on at once, whether or not events are waiting.
    Poll,
    /// Sleep until the next event.
    Wait,
    /// Leave the loop.
    Exit,
}

/// A button of the pointer.
#[derive(Copy, Clone, Debug, PartialEq, Eq, Structural)]
pub enum MouseButton {
    Left,
    Right,
    Middle,
    Other(u16),
}

/// An event of the windowing system, as far as the core takes note of it.
/// Positions and extents are in layout units.
#[derive(Copy, Clone, Debug, PartialEq, Eq)]
pub enum InputEvent {
    CloseRequested,
    Resized,
    CursorMoved { x: i32, y: i32 },
    MouseInput { pressed: bool, button: MouseButton },
    ModifiersChanged { modifiers: Modifiers },
    ReceivedCharacter { c: char },
    /// A key went down or up; `key` is `None` where it has no logical name.
    KeyboardInput { key: Option<Key>, pressed: bool },
    /// All pending events have been handed over: a frame is due on a drawing
    /// area of the given extent.
    MainEventsCleared { viewport: (i32, i32) },
    Other,
}

/// How an application wants its window.
#[derive(Copy, Clone, Debug, PartialEq, Eq)]
pub struct WindowConfig {
    /// The position of the window in logical pixels, where it matters.
    pub position: Option<(i32, i32)>,
    /// The inner size of the window in logical pixels, where it matters.
    pub inner_size: Option<(u32, u32)>,
    pub decorations: bool,
    pub always_on_top: bool,
}

impl WindowConfig {
    /// A decorated window wherever and however large the system puts it.
    pub open spec fn plain() -> WindowConfig {
        WindowConfig { position: None, inner_size: None, decorations: true, always_on_top: false }
    }
}

impl Default for WindowConfig {
    fn default() -> (config: Self)
        ensures
            config == WindowConfig::plain(),
    {
        WindowConfig { position: None, inner_size: None, decorations: true, always_on_top: false }
    }
}

/// What an application implements. Only `render` is required; every other
/// hook does nothing unless it is overridden. A hook that returns a directive
/// decides what the event loop does next.
pub trait Application {
    /// Called once before the first frame.
    fn init(&mut self, _renderer: &mut Renderer)
        default_ensures
            final(_renderer)@ == old(_renderer)@,
    {
    }

    /// Draws one frame.
    fn render(&mut self, renderer: &mut Renderer);

    /// Adjusts the window before it is created.
    fn window(&mut self, config: WindowConfig) -> (adjusted: WindowConfig)
        default_ensures
            adjusted == config,
    {
        config
    }

    fn on_text_input(&mut self, _c: char, _r: &mut Renderer) -> (answer: Option<ControlFlow>)
        default_ensures
            answer.is_none(),
            final(_r)@ == old(_r)@,
    {
        None
    }

    fn on_key_down(&mut self, _key: Key, _r: &mut Renderer) -> (answer: Option<ControlFlow>)
        default_ensures
            answer.is_none(),
            final(_r)@ == old(_r)@,
    {
        None
    }

    fn on_key_up(&mut self, _key: Key, _r: &mut Renderer) -> (answer: Option<ControlFlow>)
        default_ensures
            answer.is_none(),
            final(_r)@ == old(_r)@,
    {
        None
    }

    fn on_mouse_down(&mut self, _left: bool, _x: i32, _y: i32, _r: &mut Renderer) -> (answer:
        Option<ControlFlow>)
        default_ensures
            answer.is_none(),
            final(_r)@ == old(_r)@,
    {
        None
    }
}

/// What is due once the renderer has taken note of an event.
#[derive(Copy, Clone, Debug, PartialEq, Eq)]
pub enum Reaction {
    /// Nothing is left to the application: the loop goes on as given.
    Flow { flow: ControlFlow },
    /// The application hears of a button that went down at the pointer.
    MouseDown { left: bool, x: i32, y: i32 },
    /// The application hears of a typed character.
    TextInput { c: char },
    /// The application hears of a key that went down.
    KeyDown { key: Key },
    /// The application hears of a key that went up.
    KeyUp { key: Key },
    /// The application draws a frame.
    Render { viewport: (i32, i32) },
}

impl RendererView {
    /// The renderer after it has taken note of an event: the pointer's
    /// position follows the cursor, a released left or right button sets its
    /// click flag, the modifiers are kept, typed characters and pressed keys
    /// are queued.
    pub open spec fn noted(self, event: InputEvent) -> RendererView {
        match event {
            InputEvent::CursorMoved { x, y } => RendererView {
                mouse: MouseInfo { x, y, ..self.mouse },
                ..self
            },
            InputEvent::MouseInput { pressed: false, button: MouseButton::Left } => RendererView {
                mouse: MouseInfo { lmouseclick: true, ..self.mouse },
                ..self
            },
            InputEvent::MouseInput { pressed: false, button: MouseButton::Right } => RendererView {
                mouse: MouseInfo { rmouseclick: true, ..self.mouse },
                ..self
            },
            InputEvent::ModifiersChanged { modifiers } => RendererView { modifiers, ..self },
            InputEvent::ReceivedCharacter { c } => RendererView {
                input: self.input.push(c),
                ..self
            },
            InputEvent::KeyboardInput { key: Some(key), pressed: true } => RendererView {
                keys: self.keys.push(key),
                ..self
            },
            _ => self,
        }
    }

    /// What an event leads to: closing the window ends the loop; a pressed
    /// button, a typed character and a named key are passed on to the
    /// application; a cleared event queue calls for a frame; after anything
    /// else the loop polls.
    pub open spec fn reaction(self, event: InputEvent) -> Reaction {
        match event {
            InputEvent::CloseRequested => Reaction::Flow { flow: ControlFlow::Exit },
            InputEvent::MouseInput { pressed: true, button } => Reaction::MouseDown {
                left: button == MouseButton::Left,
                x: self.mouse.x,
                y: self.mouse.y,
            },
            InputEvent::ReceivedCharacter { c } => Reaction::TextInput { c },
            InputEvent::KeyboardInput { key: Some(key), pressed: true } => Reaction::KeyDown {
                key,
            },
            InputEvent::KeyboardInput { key: Some(key), pressed: false } => Reaction::KeyUp { key },
            InputEvent::MainEventsCleared { viewport } => Reaction::Render { viewport },
            _ => Reaction::Flow { flow: ControlFlow::Poll },
        }
    }
}

/// The directive of a hook, or polling where the hook gave none.
pub open spec fn settled(answer: Option<ControlFlow>) -> ControlFlow {
    match answer {
        Some(flow) => flow,
        None => ControlFlow::Poll,
    }
}

pub fn settle(answer: Option<ControlFlow>) -> (flow: ControlFlow)
    ensures
        flow == settled(answer),
{
    match answer {
        Some(flow) => flow,
        None => ControlFlow::Poll,
    }
}

impl Renderer {
    /// Takes note of an event and says what is due.
    pub fn note_event(&mut self, event: InputEvent) -> (reaction: Reaction)
        ensures
            final(self)@ == old(self)@.noted(event),
            reaction == old(self)@.reaction(event),
    {
        let mouse: MouseInfo = self.mouse();
        match event {
            InputEvent::CloseRequested => Reaction::Flow { flow: ControlFlow::Exit },
            InputEvent::CursorMoved { x, y } => {
                self.set_mouse(
                    MouseInfo {
                        x,
                        y,
                        lmouseclick: mouse.lmouseclick,
                        rmouseclick: mouse.rmouseclick,
                    },
                );
                Reaction::Flow { flow: ControlFlow::Poll }
            },
            InputEvent::MouseInput { pressed, button } => {
                if pressed {
                    let left: bool = match button {
                        MouseButton::Left => true,
                        _ => false,
                    };
                    Reaction::MouseDown { left, x: mouse.x, y: mouse.y }
                } else {
                    match button {
                        MouseButton::Left => {
                            self.set_mouse(
                                MouseInfo {
                                    x: mouse.x,
                                    y: mouse.y,
                                    lmouseclick: true,
                                    rmouseclick: mouse.rmouseclick,
                                },
                            );
                        },
                        MouseButton::Right => {
                            self.set_mouse(
                                MouseInfo {
                                    x: mouse.x,
                                    y: mouse.y,
                                    lmouseclick: mouse.lmouseclick,
                                    rmouseclick: true,
                                },
                            );
                        },
                        _ => {},
                    }
                    Reaction::Flow { flow: ControlFlow::Poll }
                }
            },
            InputEvent::ModifiersChanged { modifiers } => {
                self.set_modifiers(modifiers);
                Reaction::Flow { flow: ControlFlow::Poll }
            },
            InputEvent::ReceivedCharacter { c } => {
                self.push_input(c);
                Reaction::TextInput { c }
            },
            InputEvent::KeyboardInput { key, pressed } => {
                match key {
                    Some(key) => {
                        if pressed {
                            self.push_key(key);
                            Reaction::KeyDown { key }
                        } else {
                            Reaction::KeyUp { key }
                        }
                    },
                    None => Reaction::Flow { flow: ControlFlow::Poll },
                }
            },
            InputEvent::MainEventsCleared { viewport } => Reaction::Render { viewport },
            _ => Reaction::Flow { flow: ControlFlow::Poll },
        }
    }
}

/// What the event loop does with an application. Every application has
/// these operations.
pub trait ApplicationWrapper<T: Application> {
    /// Draws one frame on a drawing area of the given extent: the frame is
    /// cleared and begun, the application draws, and the frame ends by the
    /// clock. Whatever the application draws, the input queue is empty
    /// afterwards.
    fn call_render(&mut self, renderer: &mut Renderer, viewport: (i32, i32))
        ensures
            final(renderer)@.input.len() == 0,
            final(renderer)@.keys.len() == 0,
    ;

    /// Handles one event: the renderer takes note of it, then the application
    /// hears of it where a hook is due, or draws a frame. Where nothing is
    /// left to the application, the renderer is as it is after taking note
    /// and the loop goes on as the event says.
    fn handle_event(&mut self, renderer: &mut Renderer, event: InputEvent) -> (flow: ControlFlow)
        ensures
            old(renderer)@.reaction(event) matches Reaction::Flow { flow: decided } ==> flow
                == decided && final(renderer)@ == old(renderer)@.noted(event),
            old(renderer)@.reaction(event) is Render ==> flow == ControlFlow::Poll && final(renderer)@.input.len() == 0,
    ;
}

impl<T: Application> ApplicationWrapper<T> for T {
    /// The application draws exactly once, on the renderer as clearing and
    /// beginning the frame left it, and the frame ends on what it drew.
    fn call_render(&mut self, renderer: &mut Renderer, viewport: (i32, i32))
        ensures
            exists|app: &mut T, r: &mut Renderer, nanos: u128|
                *app == *old(self) && r@ == old(renderer)@.clear().begin_frame(
                    viewport,
                    r@.frame_start,
                )
                    && call_ensures(T::render, (app, r), ()) && *final(self) == *final(app)
                    && final(renderer)@ == final(r)@.end_frame(nanos),
    {
        renderer.clear();
        renderer.begin_frame(viewport);
        self.render(renderer);
        renderer.done();
    }

    /// Where a hook is due, the application hears of the event exactly once,
    /// on the renderer as taking note left it, and the loop goes on as the
    /// hook says, or polls where the hook says nothing. Where a frame is due,
    /// the application draws it and the loop polls.
    fn handle_event(&mut self, renderer: &mut Renderer, event: InputEvent) -> (flow: ControlFlow)
        ensures
            match old(renderer)@.reaction(event) {
                Reaction::Flow { flow: decided } => {
                    &&& flow == decided
                    &&& *final(self) == *old(self)
                    &&& final(renderer)@ == old(renderer)@.noted(event)
                },
                Reaction::MouseDown { left, x, y } => exists|
                    app: &mut T,
                    r: &mut Renderer,
                    answer: Option<ControlFlow>,
                |
                    *app == *old(self) && r@ == old(renderer)@.noted(event) && call_ensures(
                        T::on_mouse_down,
                        (app, left, x, y, r),
                        answer,
                    ) && *final(self) == *final(app) && final(renderer)@ == final(r)@ && flow
                        == settled(answer),
                Reaction::TextInput { c } => exists|
                    app: &mut T,
                    r: &mut Renderer,
                    answer: Option<ControlFlow>,
                |
                    *app == *old(self) && r@ == old(renderer)@.noted(event) && call_ensures(
                        T::on_text_input,
                        (app, c, r),
                        answer,
                    ) && *final(self) == *final(app) && final(renderer)@ == final(r)@ && flow
                        == settled(answer),
                Reaction::KeyDown { key } => exists|
                    app: &mut T,
                    r: &mut Renderer,
                    answer: Option<ControlFlow>,
                |
                    *app == *old(self) && r@ == old(renderer)@.noted(event) && call_ensures(
                        T::on_key_down,
                        (app, key, r),
                        answer,
                    ) && *final(self) == *final(app) && final(renderer)@ == final(r)@ && flow
                        == settled(answer),
                Reaction::KeyUp { key } => exists|
                    app: &mut T,
                    r: &mut Renderer,
                    answer: Option<ControlFlow>,
                |
                    *app == *old(self) && r@ == old(renderer)@.noted(event) && call_ensures(
                        T::on_key_up,
                        (app, key, r),
                        answer,
                    ) && *final(self) == *final(app) && final(renderer)@ == final(r)@ && flow
                        == settled(answer),
                Reaction::Render { viewport } => exists|
                    app: &mut T,
                    r: &mut Renderer,
                    nanos: u128,
                |
                    *app == *old(self) && r@ == old(renderer)@.noted(event).clear().begin_frame(
                        viewport,
                        r@.frame_start,
                    ) && call_ensures(T::render, (app, r), ()) && *final(self) == *final(app)
                        && final(renderer)@ == final(r)@.end_frame(nanos) && flow
                        == ControlFlow::Poll,
            },
    {
        match renderer.note_event(event) {
            Reaction::Flow { flow } => flow,
            Reaction::MouseDown { left, x, y } => settle(self.on_mouse_down(left, x, y, renderer)),
            Reaction::TextInput { c } => settle(self.on_text_input(c, renderer)),
            Reaction::KeyDown { key } => settle(self.on_key_down(key, renderer)),
            Reaction::KeyUp { key } => settle(self.on_key_up(key, renderer)),
            Reaction::Render { viewport } => {
                self.call_render(renderer, viewport);
                ControlFlow::Poll
            },
        }
    }
}

} // verus!
