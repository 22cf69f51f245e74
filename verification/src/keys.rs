//! The backend keycode vocabulary and the generic key vocabulary, with the
//! mapping between them as a flat table.

use vstd::prelude::*;

verus! {

/// A keycode as the native backend reports it.
#[derive(Clone, Copy, Debug, PartialEq, Eq)]
pub enum KeyCode {
    A,
    B,
    C,
    D,
    E,
    F,
    G,
    H,
    I,
    J,
    K,
    L,
    M,
    N,
    O,
    P,
    Q,
    R,
    S,
    T,
    U,
    V,
    W,
    X,
    Y,
    Z,
    _0,
    _1,
    _2,
    _3,
    _4,
    _5,
    _6,
    _7,
    _8,
    _9,
    Pad0,
    Pad1,
    Pad2,
    Pad3,
    Pad4,
    Pad5,
    Pad6,
    Pad7,
    Pad8,
    Pad9,
    F1,
    F2,
    F3,
    F4,
    F5,
    F6,
    F7,
    F8,
    F9,
    F10,
    F11,
    F12,
    Escape,
    Tilde,
    Minus,
    Equals,
    Backspace,
    Tab,
    Openbrace,
    Closebrace,
    Enter,
    Semicolon,
    Quote,
    Backslash,
    Backslash2,
    Comma,
    Fullstop,
    Slash,
    Space,
    Insert,
    Delete,
    Home,
    End,
    PgUp,
    PgDn,
    Left,
    Right,
    Up,
    Down,
    PadSlash,
    PadAsterisk,
    PadMinus,
    PadPlus,
    PadDelete,
    PadEnter,
    PrintScreen,
    Pause,
    AbntC1,
    Yen,
    Kana,
    Convert,
    NoConvert,
    At,
    Circumflex,
    Colon2,
    Kanji,
    PadEquals,
    Backquote,
    Semicolon2,
    Command,
    Unknown,
    LShift,
    RShift,
    LCtrl,
    RCtrl,
    Alt,
    AltGr,
    LWin,
    RWin,
    Menu,
    ScrollLock,
    NumLock,
    CapsLock,
}

/// A key of the generic keyboard vocabulary.
#[derive(Clone, Copy, Debug, PartialEq, Eq)]
pub enum Key {
    A,
    B,
    C,
    D,
    E,
    F,
    G,
    H,
    I,
    J,
    K,
    L,
    M,
    N,
    O,
    P,
    Q,
    R,
    S,
    T,
    U,
    V,
    W,
    X,
    Y,
    Z,
    D0,
    D1,
    D2,
    D3,
    D4,
    D5,
    D6,
    D7,
    D8,
    D9,
    NumPad0,
    NumPad1,
    NumPad2,
    NumPad3,
    NumPad4,
    NumPad5,
    NumPad6,
    NumPad7,
    NumPad8,
    NumPad9,
    F1,
    F2,
    F3,
    F4,
    F5,
    F6,
    F7,
    F8,
    F9,
    F10,
    F11,
    F12,
    Escape,
    Minus,
    Equals,
    Backspace,
    Tab,
    LeftBracket,
    RightBracket,
    Return,
    Semicolon,
    Quote,
    Backslash,
    Comma,
    Slash,
    Space,
    Insert,
    Delete,
    Home,
    End,
    PageUp,
    PageDown,
    Left,
    Right,
    Up,
    Down,
    NumPadMinus,
    NumPadPlus,
    NumPadEnter,
    PrintScreen,
    Pause,
    At,
    NumPadColon,
    NumPadEquals,
    Backquote,
    Unknown,
    LShift,
    RShift,
    LCtrl,
    RCtrl,
    LAlt,
    RAlt,
    LGui,
    RGui,
    Menu,
    ScrollLock,
    NumLockClear,
    CapsLock,
}

/// The flat mapping table from backend keycodes to generic keys: `None` for
/// the deny-list of backend codes the adapter does not support.
pub open spec fn key_mapping(code: KeyCode) -> Option<Key> {
    match code {
        KeyCode::A => Some(Key::A),
        KeyCode::B => Some(Key::B),
        KeyCode::C => Some(Key::C),
        KeyCode::D => Some(Key::D),
        KeyCode::E => Some(Key::E),
        KeyCode::F => Some(Key::F),
        KeyCode::G => Some(Key::G),
        KeyCode::H => Some(Key::H),
        KeyCode::I => Some(Key::I),
        KeyCode::J => Some(Key::J),
        KeyCode::K => Some(Key::K),
        KeyCode::L => Some(Key::L),
        KeyCode::M => Some(Key::M),
        KeyCode::N => Some(Key::N),
        KeyCode::O => Some(Key::O),
        KeyCode::P => Some(Key::P),
        KeyCode::Q => Some(Key::Q),
        KeyCode::R => Some(Key::R),
        KeyCode::S => Some(Key::S),
        KeyCode::T => Some(Key::T),
        KeyCode::U => Some(Key::U),
        KeyCode::V => Some(Key::V),
        KeyCode::W => Some(Key::W),
        KeyCode::X => Some(Key::X),
        KeyCode::Y => Some(Key::Y),
        KeyCode::Z => Some(Key::Z),
        KeyCode::_0 => Some(Key::D0),
        KeyCode::_1 => Some(Key::D1),
        KeyCode::_2 => Some(Key::D2),
        KeyCode::_3 => Some(Key::D3),
        KeyCode::_4 => Some(Key::D4),
        KeyCode::_5 => Some(Key::D5),
        KeyCode::_6 => Some(Key::D6),
        KeyCode::_7 => Some(Key::D7),
        KeyCode::_8 => Some(Key::D8),
        KeyCode::_9 => Some(Key::D9),
        KeyCode::Pad0 => Some(Key::NumPad0),
        KeyCode::Pad1 => Some(Key::NumPad1),
        KeyCode::Pad2 => Some(Key::NumPad2),
        KeyCode::Pad3 => Some(Key::NumPad3),
        KeyCode::Pad4 => Some(Key::NumPad4),
        KeyCode::Pad5 => Some(Key::NumPad5),
        KeyCode::Pad6 => Some(Key::NumPad6),
        KeyCode::Pad7 => Some(Key::NumPad7),
        KeyCode::Pad8 => Some(Key::NumPad8),
        KeyCode::Pad9 => Some(Key::NumPad9),
        KeyCode::F1 => Some(Key::F1),
        KeyCode::F2 => Some(Key::F2),
        KeyCode::F3 => Some(Key::F3),
        KeyCode::F4 => Some(Key::F4),
        KeyCode::F5 => Some(Key::F5),
        KeyCode::F6 => Some(Key::F6),
        KeyCode::F7 => Some(Key::F7),
        KeyCode::F8 => Some(Key::F8),
        KeyCode::F9 => Some(Key::F9),
        KeyCode::F10 => Some(Key::F10),
        KeyCode::F11 => Some(Key::F11),
        KeyCode::F12 => Some(Key::F12),
        KeyCode::Escape => Some(Key::Escape),
        KeyCode::Tilde => None,
        KeyCode::Minus => Some(Key::Minus),
        KeyCode::Equals => Some(Key::Equals),
        KeyCode::Backspace => Some(Key::Backspace),
        KeyCode::Tab => Some(Key::Tab),
        KeyCode::Openbrace => Some(Key::LeftBracket),
        KeyCode::Closebrace => Some(Key::RightBracket),
        KeyCode::Enter => Some(Key::Return),
        KeyCode::Semicolon => Some(Key::Semicolon),
        KeyCode::Quote => Some(Key::Quote),
        KeyCode::Backslash => Some(Key::Backslash),
        KeyCode::Backslash2 => Some(Key::Backslash),
        KeyCode::Comma => Some(Key::Comma),
        KeyCode::Fullstop => None,
        KeyCode::Slash => Some(Key::Slash),
        KeyCode::Space => Some(Key::Space),
        KeyCode::Insert => Some(Key::Insert),
        KeyCode::Delete => Some(Key::Delete),
        KeyCode::Home => Some(Key::Home),
        KeyCode::End => Some(Key::End),
        KeyCode::PgUp => Some(Key::PageUp),
        KeyCode::PgDn => Some(Key::PageDown),
        KeyCode::Left => Some(Key::Left),
        KeyCode::Right => Some(Key::Right),
        KeyCode::Up => Some(Key::Up),
        KeyCode::Down => Some(Key::Down),
        KeyCode::PadSlash => None,
        KeyCode::PadAsterisk => None,
        KeyCode::PadMinus => Some(Key::NumPadMinus),
        KeyCode::PadPlus => Some(Key::NumPadPlus),
        KeyCode::PadDelete => None,
        KeyCode::PadEnter => Some(Key::NumPadEnter),
        KeyCode::PrintScreen => Some(Key::PrintScreen),
        KeyCode::Pause => Some(Key::Pause),
        KeyCode::AbntC1 => None,
        KeyCode::Yen => None,
        KeyCode::Kana => None,
        KeyCode::Convert => None,
        KeyCode::NoConvert => None,
        KeyCode::At => Some(Key::At),
        KeyCode::Circumflex => None,
        KeyCode::Colon2 => Some(Key::NumPadColon),
        KeyCode::Kanji => None,
        KeyCode::PadEquals => Some(Key::NumPadEquals),
        KeyCode::Backquote => Some(Key::Backquote),
        KeyCode::Semicolon2 => Some(Key::Semicolon),
        KeyCode::Command => None,
        KeyCode::Unknown => Some(Key::Unknown),
        KeyCode::LShift => Some(Key::LShift),
        KeyCode::RShift => Some(Key::RShift),
        KeyCode::LCtrl => Some(Key::LCtrl),
        KeyCode::RCtrl => Some(Key::RCtrl),
        KeyCode::Alt => Some(Key::LAlt),
        KeyCode::AltGr => Some(Key::RAlt),
        KeyCode::LWin => Some(Key::LGui),
        KeyCode::RWin => Some(Key::RGui),
        KeyCode::Menu => Some(Key::Menu),
        KeyCode::ScrollLock => Some(Key::ScrollLock),
        KeyCode::NumLock => Some(Key::NumLockClear),
        KeyCode::CapsLock => Some(Key::CapsLock),
    }
}

/// A backend code of the deny-list: one the mapping table refuses.
pub open spec fn key_denied(code: KeyCode) -> bool {
    key_mapping(code) is None
}

} // verus!
