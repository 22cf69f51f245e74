//! The event translator: keycode and mouse-button mapping, and the function
//! that turns one raw backend event into one generic input event.

use crate::events::{Button, ButtonArgs, ButtonState, InputEvent, Motion, MouseButton, RawEvent,
    Unsupported};
use crate::keys::{key_denied, key_mapping, Key, KeyCode};
use vstd::prelude::*;

verus! {

/// What `translate_key` returns: the mapped generic key, or the deny-list
/// error carrying the refused code.
pub open spec fn spec_translate_key(code: KeyCode) -> Result<Key, Unsupported> {
    match key_mapping(code) {
        Some(key) => Ok(key),
        None => Err(Unsupported::Key(code)),
    }
}

/// Maps a backend keycode to a generic key. Every code outside the deny-list
/// maps to a defined key (the backend's "unknown key" code maps to the
/// sentinel `Key::Unknown`); a code of the deny-list is refused with an
/// `Unsupported::Key` error carrying that code.
pub fn translate_key(code: KeyCode) -> (r: Result<Key, Unsupported>)
    ensures
        r == spec_translate_key(code),
        r is Ok <==> !key_denied(code),
{
    match code {
        KeyCode::A => Ok(Key::A),
        KeyCode::B => Ok(Key::B),
        KeyCode::C => Ok(Key::C),
        KeyCode::D => Ok(Key::D),
        KeyCode::E => Ok(Key::E),
        KeyCode::F => Ok(Key::F),
        KeyCode::G => Ok(Key::G),
        KeyCode::H => Ok(Key::H),
        KeyCode::I => Ok(Key::I),
        KeyCode::J => Ok(Key::J),
        KeyCode::K => Ok(Key::K),
        KeyCode::L => Ok(Key::L),
        KeyCode::M => Ok(Key::M),
        KeyCode::N => Ok(Key::N),
        KeyCode::O => Ok(Key::O),
        KeyCode::P => Ok(Key::P),
        KeyCode::Q => Ok(Key::Q),
        KeyCode::R => Ok(Key::R),
        KeyCode::S => Ok(Key::S),
        KeyCode::T => Ok(Key::T),
        KeyCode::U => Ok(Key::U),
        KeyCode::V => Ok(Key::V),
        KeyCode::W => Ok(Key::W),
        KeyCode::X => Ok(Key::X),
        KeyCode::Y => Ok(Key::Y),
        KeyCode::Z => Ok(Key::Z),
        KeyCode::_0 => Ok(Key::D0),
        KeyCode::_1 => Ok(Key::D1),
        KeyCode::_2 => Ok(Key::D2),
        KeyCode::_3 => Ok(Key::D3),
        KeyCode::_4 => Ok(Key::D4),
        KeyCode::_5 => Ok(Key::D5),
        KeyCode::_6 => Ok(Key::D6),
        KeyCode::_7 => Ok(Key::D7),
        KeyCode::_8 => Ok(Key::D8),
        KeyCode::_9 => Ok(Key::D9),
        KeyCode::Pad0 => Ok(Key::NumPad0),
        KeyCode::Pad1 => Ok(Key::NumPad1),
        KeyCode::Pad2 => Ok(Key::NumPad2),
        KeyCode::Pad3 => Ok(Key::NumPad3),
        KeyCode::Pad4 => Ok(Key::NumPad4),
        KeyCode::Pad5 => Ok(Key::NumPad5),
        KeyCode::Pad6 => Ok(Key::NumPad6),
        KeyCode::Pad7 => Ok(Key::NumPad7),
        KeyCode::Pad8 => Ok(Key::NumPad8),
        KeyCode::Pad9 => Ok(Key::NumPad9),
        KeyCode::F1 => Ok(Key::F1),
        KeyCode::F2 => Ok(Key::F2),
        KeyCode::F3 => Ok(Key::F3),
        KeyCode::F4 => Ok(Key::F4),
        KeyCode::F5 => Ok(Key::F5),
        KeyCode::F6 => Ok(Key::F6),
        KeyCode::F7 => Ok(Key::F7),
        KeyCode::F8 => Ok(Key::F8),
        KeyCode::F9 => Ok(Key::F9),
        KeyCode::F10 => Ok(Key::F10),
        KeyCode::F11 => Ok(Key::F11),
        KeyCode::F12 => Ok(Key::F12),
        KeyCode::Escape => Ok(Key::Escape),
        KeyCode::Tilde => Err(Unsupported::Key(KeyCode::Tilde)),
        KeyCode::Minus => Ok(Key::Minus),
        KeyCode::Equals => Ok(Key::Equals),
        KeyCode::Backspace => Ok(Key::Backspace),
        KeyCode::Tab => Ok(Key::Tab),
        KeyCode::Openbrace => Ok(Key::LeftBracket),
        KeyCode::Closebrace => Ok(Key::RightBracket),
        KeyCode::Enter => Ok(Key::Return),
        KeyCode::Semicolon => Ok(Key::Semicolon),
        KeyCode::Quote => Ok(Key::Quote),
        KeyCode::Backslash => Ok(Key::Backslash),
        KeyCode::Backslash2 => Ok(Key::Backslash),
        KeyCode::Comma => Ok(Key::Comma),
        KeyCode::Fullstop => Err(Unsupported::Key(KeyCode::Fullstop)),
        KeyCode::Slash => Ok(Key::Slash),
        KeyCode::Space => Ok(Key::Space),
        KeyCode::Insert => Ok(Key::Insert),
        KeyCode::Delete => Ok(Key::Delete),
        KeyCode::Home => Ok(Key::Home),
        KeyCode::End => Ok(Key::End),
        KeyCode::PgUp => Ok(Key::PageUp),
        KeyCode::PgDn => Ok(Key::PageDown),
        KeyCode::Left => Ok(Key::Left),
        KeyCode::Right => Ok(Key::Right),
        KeyCode::Up => Ok(Key::Up),
        KeyCode::Down => Ok(Key::Down),
        KeyCode::PadSlash => Err(Unsupported::Key(KeyCode::PadSlash)),
        KeyCode::PadAsterisk => Err(Unsupported::Key(KeyCode::PadAsterisk)),
        KeyCode::PadMinus => Ok(Key::NumPadMinus),
        KeyCode::PadPlus => Ok(Key::NumPadPlus),
        KeyCode::PadDelete => Err(Unsupported::Key(KeyCode::PadDelete)),
        KeyCode::PadEnter => Ok(Key::NumPadEnter),
        KeyCode::PrintScreen => Ok(Key::PrintScreen),
        KeyCode::Pause => Ok(Key::Pause),
        KeyCode::AbntC1 => Err(Unsupported::Key(KeyCode::AbntC1)),
        KeyCode::Yen => Err(Unsupported::Key(KeyCode::Yen)),
        KeyCode::Kana => Err(Unsupported::Key(KeyCode::Kana)),
        KeyCode::Convert => Err(Unsupported::Key(KeyCode::Convert)),
        KeyCode::NoConvert => Err(Unsupported::Key(KeyCode::NoConvert)),
        KeyCode::At => Ok(Key::At),
        KeyCode::Circumflex => Err(Unsupported::Key(KeyCode::Circumflex)),
        KeyCode::Colon2 => Ok(Key::NumPadColon),
        KeyCode::Kanji => Err(Unsupported::Key(KeyCode::Kanji)),
        KeyCode::PadEquals => Ok(Key::NumPadEquals),
        KeyCode::Backquote => Ok(Key::Backquote),
        KeyCode::Semicolon2 => Ok(Key::Semicolon),
        KeyCode::Command => Err(Unsupported::Key(KeyCode::Command)),
        KeyCode::Unknown => Ok(Key::Unknown),
        KeyCode::LShift => Ok(Key::LShift),
        KeyCode::RShift => Ok(Key::RShift),
        KeyCode::LCtrl => Ok(Key::LCtrl),
        KeyCode::RCtrl => Ok(Key::RCtrl),
        KeyCode::Alt => Ok(Key::LAlt),
        KeyCode::AltGr => Ok(Key::RAlt),
        KeyCode::LWin => Ok(Key::LGui),
        KeyCode::RWin => Ok(Key::RGui),
        KeyCode::Menu => Ok(Key::Menu),
        KeyCode::ScrollLock => Ok(Key::ScrollLock),
        KeyCode::NumLock => Ok(Key::NumLockClear),
        KeyCode::CapsLock => Ok(Key::CapsLock),
    }
}

/// What `translate_mouse_button` returns: bit 0 means `Left`, bit 1 `Right`,
/// bit 2 `Middle`, the lowest set bit winning; a mask with none of those bits
/// set is refused with an `Unsupported::MouseButton` error carrying the mask.
pub open spec fn spec_translate_mouse_button(mask: u32) -> Result<MouseButton, Unsupported> {
    if mask & 1 != 0 {
        Ok(MouseButton::Left)
    } else if mask & 2 != 0 {
        Ok(MouseButton::Right)
    } else if mask & 4 != 0 {
        Ok(MouseButton::Middle)
    } else {
        Err(Unsupported::MouseButton(mask))
    }
}

/// Maps a backend mouse-button bitmask to a generic mouse button, bit 0
/// before bit 1 before bit 2.
pub fn translate_mouse_button(mask: u32) -> (r: Result<MouseButton, Unsupported>)
    ensures
        r == spec_translate_mouse_button(mask),
{
    if mask & 1 != 0 {
        Ok(MouseButton::Left)
    } else if mask & 2 != 0 {
        Ok(MouseButton::Right)
    } else if mask & 4 != 0 {
        Ok(MouseButton::Middle)
    } else {
        Err(Unsupported::MouseButton(mask))
    }
}

/// A key-down or key-up event translates to this: a keyboard button event
/// with no scancode, or the keycode's own error.
pub open spec fn key_button_result(
    state: ButtonState,
    code: KeyCode,
) -> Result<InputEvent, Unsupported> {
    match spec_translate_key(code) {
        Ok(key) => Ok(
            InputEvent::Button(
                ButtonArgs { state, button: Button::Keyboard(key), scancode: None },
            ),
        ),
        Err(e) => Err(e),
    }
}

/// A mouse-button-down or -up event translates to this: a mouse button event
/// with no scancode, or the mask's own error.
pub open spec fn mouse_button_result(
    state: ButtonState,
    mask: u32,
) -> Result<InputEvent, Unsupported> {
    match spec_translate_mouse_button(mask) {
        Ok(button) => Ok(
            InputEvent::Button(
                ButtonArgs { state, button: Button::Mouse(button), scancode: None },
            ),
        ),
        Err(e) => Err(e),
    }
}

/// The full translation table: what `translate` must return for each raw
/// event. Text is pinned by its character sequence, every other event by its
/// exact value.
pub open spec fn translation_of(raw: RawEvent, r: Result<InputEvent, Unsupported>) -> bool {
    match raw {
        RawEvent::NoEvent => r == Err::<InputEvent, Unsupported>(Unsupported::NoEvent),
        RawEvent::DisplayClose => r == Ok::<InputEvent, Unsupported>(InputEvent::Close),
        RawEvent::DisplayResize { width, height } => r == Ok::<InputEvent, Unsupported>(
            InputEvent::Resize(width, height),
        ),
        RawEvent::JoystickAxes => r == Err::<InputEvent, Unsupported>(Unsupported::Joystick),
        RawEvent::JoystickButtonDown => r == Err::<InputEvent, Unsupported>(
            Unsupported::Joystick,
        ),
        RawEvent::JoystickButtonUp => r == Err::<InputEvent, Unsupported>(Unsupported::Joystick),
        RawEvent::JoystickConfiguration => r == Err::<InputEvent, Unsupported>(
            Unsupported::Joystick,
        ),
        RawEvent::KeyDown { keycode } => r == key_button_result(ButtonState::Press, keycode),
        RawEvent::KeyUp { keycode } => r == key_button_result(ButtonState::Release, keycode),
        RawEvent::KeyChar { unichar } => r matches Ok(InputEvent::Text(s)) && s@ == seq![
            unichar,
        ],
        RawEvent::MouseAxes { dx, dy } => r == Ok::<InputEvent, Unsupported>(
            InputEvent::Move(Motion::MouseRelative(dx, dy)),
        ),
        RawEvent::MouseButtonDown { button } => r == mouse_button_result(
            ButtonState::Press,
            button,
        ),
        RawEvent::MouseButtonUp { button } => r == mouse_button_result(
            ButtonState::Release,
            button,
        ),
        RawEvent::MouseWarped { x, y } => r == Ok::<InputEvent, Unsupported>(
            InputEvent::Move(Motion::MouseCursor(x, y)),
        ),
        RawEvent::MouseEnterDisplay => r == Ok::<InputEvent, Unsupported>(
            InputEvent::Cursor(true),
        ),
        RawEvent::MouseLeaveDisplay => r == Ok::<InputEvent, Unsupported>(
            InputEvent::Cursor(false),
        ),
        RawEvent::TimerTick => r == Err::<InputEvent, Unsupported>(Unsupported::Timer),
    }
}

/// Every backend keycode outside the deny-list translates to a defined
/// generic key; every deny-listed code is always refused, with an error
/// carrying that code.
pub proof fn lemma_key_translation_total(code: KeyCode)
    ensures
        !key_denied(code) ==> spec_translate_key(code) is Ok,
        key_denied(code) ==> spec_translate_key(code) == Err::<Key, Unsupported>(
            Unsupported::Key(code),
        ),
{
}

/// The single-bit masks 1, 2 and 4 translate to Left, Right and Middle; when
/// several of those bits are set the lowest-numbered wins, so any mask with
/// bit 0 set gives Left; a mask with none of bits 0..=2 set is always
/// refused, with an error carrying that mask.
pub proof fn lemma_mouse_button_translation(mask: u32)
    ensures
        spec_translate_mouse_button(1) == Ok::<MouseButton, Unsupported>(MouseButton::Left),
        spec_translate_mouse_button(2) == Ok::<MouseButton, Unsupported>(MouseButton::Right),
        spec_translate_mouse_button(4) == Ok::<MouseButton, Unsupported>(MouseButton::Middle),
        mask & 1 != 0 ==> spec_translate_mouse_button(mask) == Ok::<MouseButton, Unsupported>(
            MouseButton::Left,
        ),
        mask & 7 == 0 ==> spec_translate_mouse_button(mask) == Err::<MouseButton, Unsupported>(
            Unsupported::MouseButton(mask),
        ),
{
    assert(1u32 & 1 != 0) by (bit_vector);
    assert(2u32 & 1 == 0 && 2u32 & 2 != 0) by (bit_vector);
    assert(4u32 & 1 == 0 && 4u32 & 2 == 0 && 4u32 & 4 != 0) by (bit_vector);
    assert(mask & 7 == 0 ==> mask & 1 == 0 && mask & 2 == 0 && mask & 4 == 0) by (bit_vector);
}

/// A display-close event always translates to `Close`, and to nothing else,
/// regardless of any other state.
pub proof fn lemma_display_close_translates(r: Result<InputEvent, Unsupported>)
    ensures
        translation_of(RawEvent::DisplayClose, r) <==> r == Ok::<InputEvent, Unsupported>(
            InputEvent::Close,
        ),
{
}

/// Relies on char's `ToString::to_string`: a `String` containing exactly that
/// one character.
#[verifier::external_body]
fn char_to_string(c: char) -> (r: String)
    ensures
        r@ == seq![c],
{
    c.to_string()
}

/// Translates one raw backend event into exactly one generic input event, or
/// refuses it: a "no event" marker (a caller contract violation, callers
/// filter those out), a joystick or timer event, a deny-listed keycode or an
/// unrecognized mouse-button mask all come back as `Unsupported`.
pub fn translate(raw: RawEvent) -> (r: Result<InputEvent, Unsupported>)
    ensures
        translation_of(raw, r),
{
    match raw {
        RawEvent::NoEvent => Err(Unsupported::NoEvent),
        RawEvent::DisplayClose => Ok(InputEvent::Close),
        RawEvent::DisplayResize { width, height } => Ok(InputEvent::Resize(width, height)),
        RawEvent::JoystickAxes => Err(Unsupported::Joystick),
        RawEvent::JoystickButtonDown => Err(Unsupported::Joystick),
        RawEvent::JoystickButtonUp => Err(Unsupported::Joystick),
        RawEvent::JoystickConfiguration => Err(Unsupported::Joystick),
        RawEvent::KeyDown { keycode } => match translate_key(keycode) {
            Ok(key) => Ok(
                InputEvent::Button(
                    ButtonArgs {
                        state: ButtonState::Press,
                        button: Button::Keyboard(key),
                        scancode: None,
                    },
                ),
            ),
            Err(e) => Err(e),
        },
        RawEvent::KeyUp { keycode } => match translate_key(keycode) {
            Ok(key) => Ok(
                InputEvent::Button(
                    ButtonArgs {
                        state: ButtonState::Release,
                        button: Button::Keyboard(key),
                        scancode: None,
                    },
                ),
            ),
            Err(e) => Err(e),
        },
        RawEvent::KeyChar { unichar } => Ok(InputEvent::Text(char_to_string(unichar))),
        RawEvent::MouseAxes { dx, dy } => Ok(InputEvent::Move(Motion::MouseRelative(dx, dy))),
        RawEvent::MouseButtonDown { button } => match translate_mouse_button(button) {
            Ok(b) => Ok(
                InputEvent::Button(
                    ButtonArgs {
                        state: ButtonState::Press,
                        button: Button::Mouse(b),
                        scancode: None,
                    },
                ),
            ),
            Err(e) => Err(e),
        },
        RawEvent::MouseButtonUp { button } => match translate_mouse_button(button) {
            Ok(b) => Ok(
                InputEvent::Button(
                    ButtonArgs {
                        state: ButtonState::Release,
                        button: Button::Mouse(b),
                        scancode: None,
                    },
                ),
            ),
            Err(e) => Err(e),
        },
        RawEvent::MouseWarped { x, y } => Ok(InputEvent::Move(Motion::MouseCursor(x, y))),
        RawEvent::MouseEnterDisplay => Ok(InputEvent::Cursor(true)),
        RawEvent::MouseLeaveDisplay => Ok(InputEvent::Cursor(false)),
        RawEvent::TimerTick => Err(Unsupported::Timer),
    }
}

} // verus!
