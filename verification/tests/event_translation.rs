//! Tests for the event translator: the exact generic event for each raw
//! event kind, the mouse-button mask priority, and the refusals.

use allegro_window::events::{
    Button, ButtonArgs, ButtonState, InputEvent, Motion, MouseButton, RawEvent, Unsupported,
};
use allegro_window::keys::{Key, KeyCode};
use allegro_window::translate::{translate, translate_mouse_button};

#[test]
fn single_bit_masks_map_in_order() {
    assert_eq!(translate_mouse_button(1), Ok(MouseButton::Left));
    assert_eq!(translate_mouse_button(2), Ok(MouseButton::Right));
    assert_eq!(translate_mouse_button(4), Ok(MouseButton::Middle));
}

#[test]
fn lowest_set_bit_wins() {
    assert_eq!(translate_mouse_button(3), Ok(MouseButton::Left));
    assert_eq!(translate_mouse_button(5), Ok(MouseButton::Left));
    assert_eq!(translate_mouse_button(7), Ok(MouseButton::Left));
    assert_eq!(translate_mouse_button(6), Ok(MouseButton::Right));
}

#[test]
fn mask_without_known_bits_is_refused() {
    assert_eq!(translate_mouse_button(0), Err(Unsupported::MouseButton(0)));
    assert_eq!(translate_mouse_button(8), Err(Unsupported::MouseButton(8)));
    assert_eq!(translate_mouse_button(16), Err(Unsupported::MouseButton(16)));
}

#[test]
fn display_close_translates_to_close() {
    assert_eq!(translate(RawEvent::DisplayClose), Ok(InputEvent::Close));
}

#[test]
fn display_resize_translates_to_resize() {
    assert_eq!(
        translate(RawEvent::DisplayResize { width: 640, height: 480 }),
        Ok(InputEvent::Resize(640, 480))
    );
}

#[test]
fn key_down_translates_to_a_press() {
    assert_eq!(
        translate(RawEvent::KeyDown { keycode: KeyCode::W }),
        Ok(InputEvent::Button(ButtonArgs {
            state: ButtonState::Press,
            button: Button::Keyboard(Key::W),
            scancode: None,
        }))
    );
}

#[test]
fn key_up_translates_to_a_release() {
    assert_eq!(
        translate(RawEvent::KeyUp { keycode: KeyCode::Space }),
        Ok(InputEvent::Button(ButtonArgs {
            state: ButtonState::Release,
            button: Button::Keyboard(Key::Space),
            scancode: None,
        }))
    );
}

#[test]
fn key_char_translates_to_a_one_character_text() {
    assert_eq!(
        translate(RawEvent::KeyChar { unichar: 'a' }),
        Ok(InputEvent::Text(String::from("a")))
    );
    assert_eq!(
        translate(RawEvent::KeyChar { unichar: 'é' }),
        Ok(InputEvent::Text(String::from("é")))
    );
}

#[test]
fn mouse_axes_translate_to_a_relative_move() {
    assert_eq!(
        translate(RawEvent::MouseAxes { dx: 3, dy: -4 }),
        Ok(InputEvent::Move(Motion::MouseRelative(3, -4)))
    );
}

#[test]
fn mouse_buttons_translate_with_their_state() {
    assert_eq!(
        translate(RawEvent::MouseButtonDown { button: 2 }),
        Ok(InputEvent::Button(ButtonArgs {
            state: ButtonState::Press,
            button: Button::Mouse(MouseButton::Right),
            scancode: None,
        }))
    );
    assert_eq!(
        translate(RawEvent::MouseButtonUp { button: 4 }),
        Ok(InputEvent::Button(ButtonArgs {
            state: ButtonState::Release,
            button: Button::Mouse(MouseButton::Middle),
            scancode: None,
        }))
    );
}

#[test]
fn mouse_warp_translates_to_an_absolute_move() {
    assert_eq!(
        translate(RawEvent::MouseWarped { x: 100, y: 50 }),
        Ok(InputEvent::Move(Motion::MouseCursor(100, 50)))
    );
}

#[test]
fn cursor_crossings_translate_to_cursor_events() {
    assert_eq!(translate(RawEvent::MouseEnterDisplay), Ok(InputEvent::Cursor(true)));
    assert_eq!(translate(RawEvent::MouseLeaveDisplay), Ok(InputEvent::Cursor(false)));
}

#[test]
fn unsupported_raw_events_are_refused() {
    assert_eq!(translate(RawEvent::NoEvent), Err(Unsupported::NoEvent));
    assert_eq!(translate(RawEvent::JoystickAxes), Err(Unsupported::Joystick));
    assert_eq!(translate(RawEvent::JoystickButtonDown), Err(Unsupported::Joystick));
    assert_eq!(translate(RawEvent::JoystickButtonUp), Err(Unsupported::Joystick));
    assert_eq!(translate(RawEvent::JoystickConfiguration), Err(Unsupported::Joystick));
    assert_eq!(translate(RawEvent::TimerTick), Err(Unsupported::Timer));
}

#[test]
fn denied_keycodes_are_refused_in_events_too() {
    assert_eq!(
        translate(RawEvent::KeyDown { keycode: KeyCode::Kanji }),
        Err(Unsupported::Key(KeyCode::Kanji))
    );
    assert_eq!(
        translate(RawEvent::KeyUp { keycode: KeyCode::PadSlash }),
        Err(Unsupported::Key(KeyCode::PadSlash))
    );
}

#[test]
fn bad_mouse_mask_is_refused_in_events_too() {
    assert_eq!(
        translate(RawEvent::MouseButtonDown { button: 0 }),
        Err(Unsupported::MouseButton(0))
    );
}
