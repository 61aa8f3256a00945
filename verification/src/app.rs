use vstd::prelude::*;

use crate::pond::{initial, ticked, Pond};

verus! {

/// Events that the application sends to itself.
#[derive(Clone, Copy, Debug, PartialEq, Eq, Structural)]
pub enum AppEvent {
    /// A droplet falls at the given terminal cell.
    Droplet { x: u16, y: u16 },
    /// The application should stop.
    Quit,
}

/// Whether a key was pressed, held down or let go.
#[derive(Clone, Copy, Debug, PartialEq, Eq, Structural)]
pub enum KeyKind {
    Press,
    Repeat,
    Release,
}

/// The keys that the application tells apart.
#[derive(Clone, Copy, Debug, PartialEq, Eq, Structural)]
pub enum KeyCode {
    Esc,
    Char(char),
    /// Any other key.
    Other,
}

/// The modifier keys held during a key event.
#[derive(Clone, Copy, Debug, PartialEq, Eq, Structural)]
pub struct Modifiers {
    pub shift: bool,
    pub control: bool,
    pub alt: bool,
    pub super_key: bool,
    pub hyper: bool,
    pub meta: bool,
}

/// A key event.
#[derive(Clone, Copy, Debug, PartialEq, Eq, Structural)]
pub struct KeyInput {
    pub kind: KeyKind,
    pub code: KeyCode,
    pub modifiers: Modifiers,
}

/// What a mouse event did.
#[derive(Clone, Copy, Debug, PartialEq, Eq, Structural)]
pub enum MouseKind {
    /// A button went down.
    Down,
    /// A button went up.
    Up,
    /// The mouse moved with a button held down.
    Drag,
    /// The mouse moved with no button held down.
    Moved,
    /// The wheel turned.
    Scroll,
}

/// A mouse event at a terminal cell.
#[derive(Clone, Copy, Debug, PartialEq, Eq, Structural)]
pub struct MouseInput {
    pub kind: MouseKind,
    pub column: u16,
    pub row: u16,
}

/// The terminal events that the application tells apart.
#[derive(Clone, Copy, Debug, PartialEq, Eq, Structural)]
pub enum TerminalEvent {
    Key(KeyInput),
    Mouse(MouseInput),
    /// The terminal now has the given width and height.
    Resize(u16, u16),
    /// Any other terminal event.
    Other,
}

/// An event that the application reacts to.
#[derive(Clone, Copy, Debug, PartialEq, Eq, Structural)]
pub enum Event {
    Terminal(TerminalEvent),
    App(AppEvent),
}

impl Modifiers {
    /// The control key held alone.
    pub open spec fn spec_control_only() -> Modifiers {
        Modifiers { shift: false, control: true, alt: false, super_key: false, hyper: false, meta: false }
    }

    /// The control key held alone.
    #[verifier::when_used_as_spec(spec_control_only)]
    pub fn control_only() -> (m: Modifiers)
        ensures
            m == Self::spec_control_only(),
    {
        Modifiers { shift: false, control: true, alt: false, super_key: false, hyper: false, meta: false }
    }
}

/// The event a key event makes the application send: `Quit` for a press of
/// Esc or `q`, or of `c` or `C` with the control key alone; nothing otherwise.
pub open spec fn key_response(key: KeyInput) -> Option<AppEvent> {
    if key.kind != KeyKind::Press {
        None
    } else {
        match key.code {
            KeyCode::Esc => Some(AppEvent::Quit),
            KeyCode::Char(c) => {
                if c == 'q' {
                    Some(AppEvent::Quit)
                } else if (c == 'c' || c == 'C') && key.modifiers == Modifiers::control_only() {
                    Some(AppEvent::Quit)
                } else {
                    None
                }
            },
            KeyCode::Other => None,
        }
    }
}

/// The event a mouse event makes the application send: a droplet where a
/// button went down; nothing otherwise.
pub open spec fn mouse_response(mouse: MouseInput) -> Option<AppEvent> {
    if mouse.kind == MouseKind::Down {
        Some(AppEvent::Droplet { x: mouse.column, y: mouse.row })
    } else {
        None
    }
}

/// The modifiers hold the control key and no other key.
pub open spec fn is_control_alone(m: Modifiers) -> bool {
    &&& m.control
    &&& !m.shift
    &&& !m.alt
    &&& !m.super_key
    &&& !m.hyper
    &&& !m.meta
}

/// `control_only` sets the control flag and clears every other flag.
pub proof fn lemma_control_only_flags()
    ensures
        Modifiers::spec_control_only().control,
        !Modifiers::spec_control_only().shift,
        !Modifiers::spec_control_only().alt,
        !Modifiers::spec_control_only().super_key,
        !Modifiers::spec_control_only().hyper,
        !Modifiers::spec_control_only().meta,
        forall|m: Modifiers| #[trigger] is_control_alone(m) <==> m == Modifiers::spec_control_only(),
{
}

/// Only presses can quit. A press of Esc or `q` quits whatever the modifiers;
/// a press of `c` or `C` quits exactly when the control key is held alone;
/// a press of any other key, or any other character, sends nothing.
pub proof fn lemma_key_response(key: KeyInput)
    ensures
        key.kind != KeyKind::Press ==> key_response(key) is None,
        key_response(key) is Some ==> key_response(key) == Some(AppEvent::Quit),
        key.kind == KeyKind::Press && key.code == KeyCode::Esc ==> key_response(key) == Some(
            AppEvent::Quit,
        ),
        key.kind == KeyKind::Press && key.code == KeyCode::Char('q') ==> key_response(key) == Some(
            AppEvent::Quit,
        ),
        key.kind == KeyKind::Press && (key.code == KeyCode::Char('c') || key.code == KeyCode::Char(
            'C',
        )) ==> (key_response(key) == Some(AppEvent::Quit) <==> is_control_alone(key.modifiers)),
        key.kind == KeyKind::Press && (key.code == KeyCode::Char('c') || key.code == KeyCode::Char(
            'C',
        )) && !is_control_alone(key.modifiers) ==> key_response(key) is None,
        key.code == KeyCode::Other ==> key_response(key) is None,
        forall|c: char|
            key.code == KeyCode::Char(c) && c != 'q' && c != 'c' && c != 'C' ==> key_response(
                key,
            ) is None,
{
}

/// A mouse event sends a droplet at its own cell when a button went down,
/// and nothing for any other kind of mouse event.
pub proof fn lemma_mouse_response(mouse: MouseInput)
    ensures
        mouse.kind != MouseKind::Down ==> mouse_response(mouse) is None,
        mouse.kind == MouseKind::Down ==> mouse_response(mouse) == Some(
            AppEvent::Droplet { x: mouse.column, y: mouse.row },
        ),
{
}

/// Application.
pub struct App<T> {
    /// Is the application running?
    pub running: bool,
    /// Rippling pond.
    pub pond: Pond<T>,
}

impl<T: Copy> App<T> {
    /// Constructs a new, running application with a new pond.
    pub fn new(rest: T, splash: T) -> (app: Self)
        ensures
            app.running,
            app.pond.wf(),
            app.pond@ == initial(rest, splash),
    {
        App { running: true, pond: Pond::new(rest, splash) }
    }

    /// Returns the event that a key event makes the application send.
    pub fn handle_key_events(&self, key_event: KeyInput) -> (sent: Option<AppEvent>)
        ensures
            sent == key_response(key_event),
    {
        if key_event.kind != KeyKind::Press {
            return None;
        }
        match key_event.code {
            KeyCode::Esc => Some(AppEvent::Quit),
            KeyCode::Char(c) => {
                if c == 'q' {
                    Some(AppEvent::Quit)
                } else if (c == 'c' || c == 'C') && key_event.modifiers == Modifiers::control_only() {
                    Some(AppEvent::Quit)
                } else {
                    None
                }
            },
            KeyCode::Other => None,
        }
    }

    /// Returns the event that a mouse event makes the application send.
    pub fn handle_mouse_events(&self, mouse_event: MouseInput) -> (sent: Option<AppEvent>)
        ensures
            sent == mouse_response(mouse_event),
    {
        if mouse_event.kind == MouseKind::Down {
            Some(AppEvent::Droplet { x: mouse_event.column, y: mouse_event.row })
        } else {
            None
        }
    }

    /// Updates the application state for one tick.
    pub fn tick<F: Fn(Vec<Option<T>>, T) -> T>(&mut self, step: F)
        requires
            old(self).pond.wf(),
            forall|v: Vec<Option<T>>, p: T| #[trigger] call_requires(step, (v, p)),
        ensures
            final(self).running == old(self).running,
            final(self).pond.wf(),
            ticked(old(self).pond@, final(self).pond@, step),
    {
        self.pond.tick(step);
    }

    /// Set running to false to quit the application.
    pub fn quit(&mut self)
        ensures
            !final(self).running,
            final(self).pond == old(self).pond,
    {
        self.running = false;
    }

    /// Reacts to an event and returns the event the application sends in
    /// answer: key and mouse events are answered as `handle_key_events` and
    /// `handle_mouse_events` say and change nothing; a resize resizes the
    /// pond, a droplet falls into it, and `Quit` stops the application.
    pub fn handle_event(&mut self, event: Event) -> (sent: Option<AppEvent>)
        requires
            old(self).pond.wf(),
        ensures
            final(self).pond.wf(),
            match event {
                Event::Terminal(TerminalEvent::Key(key)) => {
                    &&& sent == key_response(key)
                    &&& final(self).running == old(self).running
                    &&& final(self).pond@ == old(self).pond@
                },
                Event::Terminal(TerminalEvent::Mouse(mouse)) => {
                    &&& sent == mouse_response(mouse)
                    &&& final(self).running == old(self).running
                    &&& final(self).pond@ == old(self).pond@
                },
                Event::Terminal(TerminalEvent::Resize(width, height)) => {
                    &&& sent is None
                    &&& final(self).running == old(self).running
                    &&& final(self).pond@ == old(self).pond@.resized(width as nat, height as nat)
                },
                Event::Terminal(TerminalEvent::Other) => {
                    &&& sent is None
                    &&& final(self).running == old(self).running
                    &&& final(self).pond@ == old(self).pond@
                },
                Event::App(AppEvent::Droplet { x, y }) => {
                    &&& sent is None
                    &&& final(self).running == old(self).running
                    &&& final(self).pond@ == old(self).pond@.dropped(x as int, y as int)
                },
                Event::App(AppEvent::Quit) => {
                    &&& sent is None
                    &&& !final(self).running
                    &&& final(self).pond@ == old(self).pond@
                },
            },
    {
        match event {
            Event::Terminal(TerminalEvent::Key(key)) => self.handle_key_events(key),
            Event::Terminal(TerminalEvent::Mouse(mouse)) => self.handle_mouse_events(mouse),
            Event::Terminal(TerminalEvent::Resize(width, height)) => {
                self.pond.resize(width, height);
                None
            },
            Event::Terminal(TerminalEvent::Other) => None,
            Event::App(AppEvent::Droplet { x, y }) => {
                self.pond.droplet(x, y);
                None
            },
            Event::App(AppEvent::Quit) => {
                self.quit();
                None
            },
        }
    }
}

} // verus!
