//! Tests for the window state machine: the close policy, the three polling
//! modes over a scripted event source, and the plain state accessors.

use allegro_window::adapter::{EventSettings, EventSource, WindowConfig, WindowState};
use allegro_window::events::{
    Button, ButtonArgs, ButtonState, InputEvent, Motion, MouseButton, RawEvent,
};
use allegro_window::keys::{Key, KeyCode};

fn config(title: &str, exit_on_esc: bool) -> WindowConfig {
    WindowConfig { title: String::from(title), width: 640, height: 480, exit_on_esc }
}

fn escape_press() -> InputEvent {
    InputEvent::Button(ButtonArgs {
        state: ButtonState::Press,
        button: Button::Keyboard(Key::Escape),
        scancode: None,
    })
}

#[test]
fn close_policy_fires_only_on_an_armed_escape_press() {
    let mut w = WindowState::new(&config("T", true));
    w.apply_close_policy(&escape_press());
    assert!(w.should_close());

    let mut w = WindowState::new(&config("T", false));
    w.apply_close_policy(&escape_press());
    assert!(!w.should_close());

    let mut w = WindowState::new(&config("T", true));
    w.apply_close_policy(&InputEvent::Button(ButtonArgs {
        state: ButtonState::Release,
        button: Button::Keyboard(Key::Escape),
        scancode: None,
    }));
    assert!(!w.should_close());

    w.apply_close_policy(&InputEvent::Button(ButtonArgs {
        state: ButtonState::Press,
        button: Button::Keyboard(Key::A),
        scancode: None,
    }));
    assert!(!w.should_close());

    w.apply_close_policy(&InputEvent::Button(ButtonArgs {
        state: ButtonState::Press,
        button: Button::Mouse(MouseButton::Left),
        scancode: None,
    }));
    assert!(!w.should_close());

    w.apply_close_policy(&InputEvent::Close);
    assert!(!w.should_close());
}

#[test]
fn close_policy_never_revokes_a_requested_close() {
    let mut w = WindowState::new(&config("T", true));
    w.set_should_close(true);
    w.apply_close_policy(&InputEvent::Cursor(true));
    assert!(w.should_close());
    w.apply_close_policy(&escape_press());
    assert!(w.should_close());
}

#[test]
fn wait_event_consumes_markers_until_a_real_event() {
    let mut w = WindowState::new(&config("T", true));
    let mut q = EventSource::new(vec![
        RawEvent::NoEvent,
        RawEvent::NoEvent,
        RawEvent::NoEvent,
        RawEvent::DisplayClose,
    ]);
    assert_eq!(w.wait_event(&mut q), Some(Ok(InputEvent::Close)));
    assert_eq!(q.cursor, 4);
    // A drained source yields nothing more (the native wait would block).
    assert_eq!(w.wait_event(&mut q), None);
}

#[test]
fn poll_event_returns_none_on_an_empty_queue() {
    let mut w = WindowState::new(&config("T", true));
    let mut q = EventSource::new(vec![]);
    assert_eq!(w.poll_event(&mut q), None);
    q.pending.push(RawEvent::MouseEnterDisplay);
    assert_eq!(w.poll_event(&mut q), Some(Ok(InputEvent::Cursor(true))));
    assert_eq!(w.poll_event(&mut q), None);
}

#[test]
fn wait_event_timeout_yields_one_none_per_expiry() {
    let mut w = WindowState::new(&config("T", true));
    let mut q = EventSource::new(vec![RawEvent::NoEvent, RawEvent::DisplayClose]);
    // One "no event" marker is one expired wait: no internal retry past it.
    assert_eq!(w.wait_event_timeout(&mut q), None);
    assert_eq!(w.wait_event_timeout(&mut q), Some(Ok(InputEvent::Close)));
    assert_eq!(w.wait_event_timeout(&mut q), None);
}

#[test]
fn escape_press_with_exit_armed_requests_close() {
    let mut w = WindowState::new(&config("T", true));
    assert_eq!(w.get_title(), "T");
    assert!(!w.should_close());
    let mut q = EventSource::new(vec![RawEvent::KeyDown { keycode: KeyCode::Escape }]);
    assert_eq!(w.wait_event(&mut q), Some(Ok(escape_press())));
    assert!(w.should_close());
}

#[test]
fn escape_press_with_exit_disarmed_changes_nothing() {
    let mut w = WindowState::new(&config("T", false));
    let mut q = EventSource::new(vec![RawEvent::KeyDown { keycode: KeyCode::Escape }]);
    assert_eq!(w.wait_event(&mut q), Some(Ok(escape_press())));
    assert!(!w.should_close());
}

#[test]
fn mouse_warp_polls_as_an_absolute_move() {
    let mut w = WindowState::new(&config("T", true));
    let mut q = EventSource::new(vec![RawEvent::MouseWarped { x: 100, y: 50 }]);
    assert_eq!(
        w.poll_event(&mut q),
        Some(Ok(InputEvent::Move(Motion::MouseCursor(100, 50))))
    );
    assert!(!w.should_close());
}

#[test]
fn unsupported_events_leave_the_state_untouched() {
    let mut w = WindowState::new(&config("T", true));
    let mut q = EventSource::new(vec![RawEvent::JoystickAxes, RawEvent::TimerTick]);
    assert!(matches!(w.poll_event(&mut q), Some(Err(_))));
    assert!(matches!(w.wait_event(&mut q), Some(Err(_))));
    assert!(!w.should_close());
}

#[test]
fn accessors_and_builders_keep_the_state() {
    let w = WindowState::new(&config("first", false));
    assert_eq!(w.get_event_settings(), EventSettings::new());
    assert_eq!(EventSettings::new().max_fps, 60);
    assert_eq!(EventSettings::new().ups, 120);
    assert_eq!(EventSettings::new().ups_reset, 2);
    assert!(EventSettings::new().swap_buffers);
    assert!(!EventSettings::new().bench_mode);
    assert!(!EventSettings::new().lazy);

    let mut w = w.title(String::from("second")).exit_on_esc(true);
    assert_eq!(w.get_title(), "second");
    assert!(w.get_exit_on_esc());
    assert!(!w.should_close());

    w.set_title(String::from("third"));
    assert_eq!(w.get_title(), "third");
    w.set_exit_on_esc(false);
    assert!(!w.get_exit_on_esc());

    let settings = EventSettings {
        max_fps: 30,
        ups: 60,
        ups_reset: 1,
        swap_buffers: false,
        bench_mode: true,
        lazy: true,
    };
    w.set_event_settings(settings);
    assert_eq!(w.get_event_settings(), settings);

    w.set_should_close(true);
    assert!(w.should_close());
    w.set_should_close(false);
    assert!(!w.should_close());
}
