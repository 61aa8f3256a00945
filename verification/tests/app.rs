use ripples::app::{
    App, AppEvent, Event, KeyCode, KeyInput, KeyKind, Modifiers, MouseInput, MouseKind,
    TerminalEvent,
};

fn no_modifiers() -> Modifiers {
    Modifiers { shift: false, control: false, alt: false, super_key: false, hyper: false, meta: false }
}

fn press(code: KeyCode, modifiers: Modifiers) -> KeyInput {
    KeyInput { kind: KeyKind::Press, code, modifiers }
}

fn new_app() -> App<i64> {
    App::new(0, -1)
}

#[test]
fn new_app_is_running() {
    let app = new_app();
    assert!(app.running);
    assert_eq!(app.pond.value(0, 0), 0);
}

#[test]
fn escape_and_q_quit() {
    let app = new_app();
    assert_eq!(app.handle_key_events(press(KeyCode::Esc, no_modifiers())), Some(AppEvent::Quit));
    assert_eq!(app.handle_key_events(press(KeyCode::Char('q'), no_modifiers())), Some(AppEvent::Quit));
    let shifted = Modifiers { shift: true, ..no_modifiers() };
    assert_eq!(app.handle_key_events(press(KeyCode::Char('q'), shifted)), Some(AppEvent::Quit));
}

#[test]
fn control_c_quits() {
    let app = new_app();
    let control = Modifiers::control_only();
    assert_eq!(app.handle_key_events(press(KeyCode::Char('c'), control)), Some(AppEvent::Quit));
    assert_eq!(app.handle_key_events(press(KeyCode::Char('C'), control)), Some(AppEvent::Quit));
}

#[test]
fn c_without_control_alone_does_nothing() {
    let app = new_app();
    assert_eq!(app.handle_key_events(press(KeyCode::Char('c'), no_modifiers())), None);
    let control_shift = Modifiers { shift: true, ..Modifiers::control_only() };
    assert_eq!(app.handle_key_events(press(KeyCode::Char('C'), control_shift)), None);
}

#[test]
fn other_keys_and_releases_do_nothing() {
    let app = new_app();
    assert_eq!(app.handle_key_events(press(KeyCode::Char('x'), no_modifiers())), None);
    assert_eq!(app.handle_key_events(press(KeyCode::Other, no_modifiers())), None);
    let release = KeyInput { kind: KeyKind::Release, code: KeyCode::Esc, modifiers: no_modifiers() };
    assert_eq!(app.handle_key_events(release), None);
    let repeat = KeyInput { kind: KeyKind::Repeat, code: KeyCode::Char('q'), modifiers: no_modifiers() };
    assert_eq!(app.handle_key_events(repeat), None);
}

#[test]
fn mouse_down_sends_a_droplet() {
    let app = new_app();
    let down = MouseInput { kind: MouseKind::Down, column: 4, row: 2 };
    assert_eq!(app.handle_mouse_events(down), Some(AppEvent::Droplet { x: 4, y: 2 }));
    let drag = MouseInput { kind: MouseKind::Drag, column: 4, row: 2 };
    assert_eq!(app.handle_mouse_events(drag), None);
}

#[test]
fn quit_stops_the_app() {
    let mut app = new_app();
    app.quit();
    assert!(!app.running);
}

#[test]
fn events_resize_drop_and_quit() {
    let mut app = new_app();
    assert_eq!(app.handle_event(Event::Terminal(TerminalEvent::Resize(5, 3))), None);
    assert_eq!(app.handle_event(Event::App(AppEvent::Droplet { x: 2, y: 1 })), None);
    assert_eq!(app.pond.value(2, 1), -1);
    let down = MouseInput { kind: MouseKind::Down, column: 1, row: 1 };
    assert_eq!(
        app.handle_event(Event::Terminal(TerminalEvent::Mouse(down))),
        Some(AppEvent::Droplet { x: 1, y: 1 })
    );
    assert_eq!(app.pond.value(1, 1), 0);
    let q = press(KeyCode::Char('q'), no_modifiers());
    assert_eq!(app.handle_event(Event::Terminal(TerminalEvent::Key(q))), Some(AppEvent::Quit));
    assert!(app.running);
    assert_eq!(app.handle_event(Event::Terminal(TerminalEvent::Other)), None);
    assert_eq!(app.handle_event(Event::App(AppEvent::Quit)), None);
    assert!(!app.running);
}

#[test]
fn tick_advances_the_pond() {
    let mut app = new_app();
    app.handle_event(Event::Terminal(TerminalEvent::Resize(3, 1)));
    app.handle_event(Event::App(AppEvent::Droplet { x: 0, y: 0 }));
    app.tick(|neighbors: Vec<Option<i64>>, previous: i64| {
        neighbors.iter().map(|n| n.unwrap_or(0)).sum::<i64>() - previous
    });
    assert!(app.running);
    assert_eq!(app.pond.value(1, 0), -1);
    assert_eq!(app.pond.previous_value(0, 0), -1);
}
