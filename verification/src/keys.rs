//! Key label resolution: maps a raw key identifier from either event
//! source (the OS-level global hook, or the windowing toolkit) to a short
//! human-readable label. Two independent tables exist because the two
//! sources use different key-code encodings for the same physical keys;
//! the tables agree on the label of every key the overlay supports
//! (letters, digits, function keys, modifiers, punctuation, navigation
//! and arrow keys, numpad). Unmapped codes resolve to the empty label: a
//! missing mapping must never take down a live overlay.

use vstd::prelude::*;

verus! {

/// A key identifier as reported by the OS-level global keyboard hook.
#[derive(Debug, Clone, Copy, PartialEq, Eq, Structural)]
pub enum GlobalKey {
    Alt,
    AltGr,
    Backspace,
    CapsLock,
    ControlLeft,
    ControlRight,
    Delete,
    DownArrow,
    End,
    Escape,
    F1,
    F2,
    F3,
    F4,
    F5,
    F6,
    F7,
    F8,
    F9,
    F10,
    F11,
    F12,
    Home,
    LeftArrow,
    MetaLeft,
    MetaRight,
    PageDown,
    PageUp,
    Return,
    RightArrow,
    ShiftLeft,
    ShiftRight,
    Space,
    Tab,
    UpArrow,
    PrintScreen,
    ScrollLock,
    Pause,
    NumLock,
    BackQuote,
    Num1,
    Num2,
    Num3,
    Num4,
    Num5,
    Num6,
    Num7,
    Num8,
    Num9,
    Num0,
    Minus,
    Equal,
    KeyQ,
    KeyW,
    KeyE,
    KeyR,
    KeyT,
    KeyY,
    KeyU,
    KeyI,
    KeyO,
    KeyP,
    LeftBracket,
    RightBracket,
    KeyA,
    KeyS,
    KeyD,
    KeyF,
    KeyG,
    KeyH,
    KeyJ,
    KeyK,
    KeyL,
    SemiColon,
    Quote,
    BackSlash,
    IntlBackslash,
    KeyZ,
    KeyX,
    KeyC,
    KeyV,
    KeyB,
    KeyN,
    KeyM,
    Comma,
    Dot,
    Slash,
    Insert,
    KpReturn,
    KpMinus,
    KpPlus,
    KpMultiply,
    KpDivide,
    Kp0,
    Kp1,
    Kp2,
    Kp3,
    Kp4,
    Kp5,
    Kp6,
    Kp7,
    Kp8,
    Kp9,
    KpDelete,
    Function,
    Unknown(u32),
}

/// The display label of a global-hook key; empty for unmapped codes.
pub open spec fn global_label(k: GlobalKey) -> Seq<char> {
    match k {
        GlobalKey::Alt => "Alt"@,
        GlobalKey::AltGr => "AltGr"@,
        GlobalKey::Backspace => "Backspace"@,
        GlobalKey::CapsLock => "Caps"@,
        GlobalKey::ControlLeft => "Ctrl"@,
        GlobalKey::ControlRight => "Ctrl"@,
        GlobalKey::Delete => "Del"@,
        GlobalKey::DownArrow => "Down"@,
        GlobalKey::End => "End"@,
        GlobalKey::Escape => "Esc"@,
        GlobalKey::F1 => "F1"@,
        GlobalKey::F2 => "F2"@,
        GlobalKey::F3 => "F3"@,
        GlobalKey::F4 => "F4"@,
        GlobalKey::F5 => "F5"@,
        GlobalKey::F6 => "F6"@,
        GlobalKey::F7 => "F7"@,
        GlobalKey::F8 => "F8"@,
        GlobalKey::F9 => "F9"@,
        GlobalKey::F10 => "F10"@,
        GlobalKey::F11 => "F11"@,
        GlobalKey::F12 => "F12"@,
        GlobalKey::Home => "Home"@,
        GlobalKey::LeftArrow => "Left"@,
        GlobalKey::MetaLeft => "Meta"@,
        GlobalKey::MetaRight => "Meta"@,
        GlobalKey::PageDown => "PgDn"@,
        GlobalKey::PageUp => "PgUp"@,
        GlobalKey::Return => "Enter"@,
        GlobalKey::RightArrow => "Right"@,
        GlobalKey::ShiftLeft => "Shift"@,
        GlobalKey::ShiftRight => "Shift"@,
        GlobalKey::Space => "Space"@,
        GlobalKey::Tab => "Tab"@,
        GlobalKey::UpArrow => "Up"@,
        GlobalKey::PrintScreen => "PrtSc"@,
        GlobalKey::ScrollLock => "ScrLk"@,
        GlobalKey::Pause => "Pause"@,
        GlobalKey::NumLock => "NumLock"@,
        GlobalKey::BackQuote => "`"@,
        GlobalKey::Num1 => "1"@,
        GlobalKey::Num2 => "2"@,
        GlobalKey::Num3 => "3"@,
        GlobalKey::Num4 => "4"@,
        GlobalKey::Num5 => "5"@,
        GlobalKey::Num6 => "6"@,
        GlobalKey::Num7 => "7"@,
        GlobalKey::Num8 => "8"@,
        GlobalKey::Num9 => "9"@,
        GlobalKey::Num0 => "0"@,
        GlobalKey::Minus => "-"@,
        GlobalKey::Equal => "="@,
        GlobalKey::KeyQ => "Q"@,
        GlobalKey::KeyW => "W"@,
        GlobalKey::KeyE => "E"@,
        GlobalKey::KeyR => "R"@,
        GlobalKey::KeyT => "T"@,
        GlobalKey::KeyY => "Y"@,
        GlobalKey::KeyU => "U"@,
        GlobalKey::KeyI => "I"@,
        GlobalKey::KeyO => "O"@,
        GlobalKey::KeyP => "P"@,
        GlobalKey::LeftBracket => "["@,
        GlobalKey::RightBracket => "]"@,
        GlobalKey::KeyA => "A"@,
        GlobalKey::KeyS => "S"@,
        GlobalKey::KeyD => "D"@,
        GlobalKey::KeyF => "F"@,
        GlobalKey::KeyG => "G"@,
        GlobalKey::KeyH => "H"@,
        GlobalKey::KeyJ => "J"@,
        GlobalKey::KeyK => "K"@,
        GlobalKey::KeyL => "L"@,
        GlobalKey::SemiColon => ";"@,
        GlobalKey::Quote => "'"@,
        GlobalKey::BackSlash => "\\"@,
        GlobalKey::IntlBackslash => "\\"@,
        GlobalKey::KeyZ => "Z"@,
        GlobalKey::KeyX => "X"@,
        GlobalKey::KeyC => "C"@,
        GlobalKey::KeyV => "V"@,
        GlobalKey::KeyB => "B"@,
        GlobalKey::KeyN => "N"@,
        GlobalKey::KeyM => "M"@,
        GlobalKey::Comma => ","@,
        GlobalKey::Dot => "."@,
        GlobalKey::Slash => "/"@,
        GlobalKey::Insert => "Ins"@,
        GlobalKey::KpReturn => "Enter"@,
        GlobalKey::KpMinus => "-"@,
        GlobalKey::KpPlus => "+"@,
        GlobalKey::KpMultiply => "*"@,
        GlobalKey::KpDivide => "/"@,
        GlobalKey::Kp0 => "0"@,
        GlobalKey::Kp1 => "1"@,
        GlobalKey::Kp2 => "2"@,
        GlobalKey::Kp3 => "3"@,
        GlobalKey::Kp4 => "4"@,
        GlobalKey::Kp5 => "5"@,
        GlobalKey::Kp6 => "6"@,
        GlobalKey::Kp7 => "7"@,
        GlobalKey::Kp8 => "8"@,
        GlobalKey::Kp9 => "9"@,
        GlobalKey::KpDelete => "."@,
        GlobalKey::Function => "Fn"@,
        GlobalKey::Unknown(_) => ""@,
    }
}

/// Resolves a global-hook key to its display label; unmapped codes yield
/// the empty label rather than an error.
pub fn rdev_to_key(key: &GlobalKey) -> (label: &'static str)
    ensures
        label@ == global_label(*key),
{
    match key {
        GlobalKey::Alt => "Alt",
        GlobalKey::AltGr => "AltGr",
        GlobalKey::Backspace => "Backspace",
        GlobalKey::CapsLock => "Caps",
        GlobalKey::ControlLeft => "Ctrl",
        GlobalKey::ControlRight => "Ctrl",
        GlobalKey::Delete => "Del",
        GlobalKey::DownArrow => "Down",
        GlobalKey::End => "End",
        GlobalKey::Escape => "Esc",
        GlobalKey::F1 => "F1",
        GlobalKey::F2 => "F2",
        GlobalKey::F3 => "F3",
        GlobalKey::F4 => "F4",
        GlobalKey::F5 => "F5",
        GlobalKey::F6 => "F6",
        GlobalKey::F7 => "F7",
        GlobalKey::F8 => "F8",
        GlobalKey::F9 => "F9",
        GlobalKey::F10 => "F10",
        GlobalKey::F11 => "F11",
        GlobalKey::F12 => "F12",
        GlobalKey::Home => "Home",
        GlobalKey::LeftArrow => "Left",
        GlobalKey::MetaLeft => "Meta",
        GlobalKey::MetaRight => "Meta",
        GlobalKey::PageDown => "PgDn",
        GlobalKey::PageUp => "PgUp",
        GlobalKey::Return => "Enter",
        GlobalKey::RightArrow => "Right",
        GlobalKey::ShiftLeft => "Shift",
        GlobalKey::ShiftRight => "Shift",
        GlobalKey::Space => "Space",
        GlobalKey::Tab => "Tab",
        GlobalKey::UpArrow => "Up",
        GlobalKey::PrintScreen => "PrtSc",
        GlobalKey::ScrollLock => "ScrLk",
        GlobalKey::Pause => "Pause",
        GlobalKey::NumLock => "NumLock",
        GlobalKey::BackQuote => "`",
        GlobalKey::Num1 => "1",
        GlobalKey::Num2 => "2",
        GlobalKey::Num3 => "3",
        GlobalKey::Num4 => "4",
        GlobalKey::Num5 => "5",
        GlobalKey::Num6 => "6",
        GlobalKey::Num7 => "7",
        GlobalKey::Num8 => "8",
        GlobalKey::Num9 => "9",
        GlobalKey::Num0 => "0",
        GlobalKey::Minus => "-",
        GlobalKey::Equal => "=",
        GlobalKey::KeyQ => "Q",
        GlobalKey::KeyW => "W",
        GlobalKey::KeyE => "E",
        GlobalKey::KeyR => "R",
        GlobalKey::KeyT => "T",
        GlobalKey::KeyY => "Y",
        GlobalKey::KeyU => "U",
        GlobalKey::KeyI => "I",
        GlobalKey::KeyO => "O",
        GlobalKey::KeyP => "P",
        GlobalKey::LeftBracket => "[",
        GlobalKey::RightBracket => "]",
        GlobalKey::KeyA => "A",
        GlobalKey::KeyS => "S",
        GlobalKey::KeyD => "D",
        GlobalKey::KeyF => "F",
        GlobalKey::KeyG => "G",
        GlobalKey::KeyH => "H",
        GlobalKey::KeyJ => "J",
        GlobalKey::KeyK => "K",
        GlobalKey::KeyL => "L",
        GlobalKey::SemiColon => ";",
        GlobalKey::Quote => "'",
        GlobalKey::BackSlash => "\\",
        GlobalKey::IntlBackslash => "\\",
        GlobalKey::KeyZ => "Z",
        GlobalKey::KeyX => "X",
        GlobalKey::KeyC => "C",
        GlobalKey::KeyV => "V",
        GlobalKey::KeyB => "B",
        GlobalKey::KeyN => "N",
        GlobalKey::KeyM => "M",
        GlobalKey::Comma => ",",
        GlobalKey::Dot => ".",
        GlobalKey::Slash => "/",
        GlobalKey::Insert => "Ins",
        GlobalKey::KpReturn => "Enter",
        GlobalKey::KpMinus => "-",
        GlobalKey::KpPlus => "+",
        GlobalKey::KpMultiply => "*",
        GlobalKey::KpDivide => "/",
        GlobalKey::Kp0 => "0",
        GlobalKey::Kp1 => "1",
        GlobalKey::Kp2 => "2",
        GlobalKey::Kp3 => "3",
        GlobalKey::Kp4 => "4",
        GlobalKey::Kp5 => "5",
        GlobalKey::Kp6 => "6",
        GlobalKey::Kp7 => "7",
        GlobalKey::Kp8 => "8",
        GlobalKey::Kp9 => "9",
        GlobalKey::KpDelete => ".",
        GlobalKey::Function => "Fn",
        GlobalKey::Unknown(_) => "",
    }
}

/// A key identifier as reported by the windowing toolkit's own keyboard
/// events; `Unmapped` stands for every toolkit code the overlay does not
/// claim to support.
#[derive(Debug, Clone, Copy, PartialEq, Eq, Structural)]
pub enum LocalKey {
    Key1,
    Key2,
    Key3,
    Key4,
    Key5,
    Key6,
    Key7,
    Key8,
    Key9,
    Key0,
    A,
    B,
    C,
    D,
    E,
    F,
    G,
    H,
    I,
    J,
    K,
    L,
    M,
    N,
    O,
    P,
    Q,
    R,
    S,
    T,
    U,
    V,
    W,
    X,
    Y,
    Z,
    Escape,
    F1,
    F2,
    F3,
    F4,
    F5,
    F6,
    F7,
    F8,
    F9,
    F10,
    F11,
    F12,
    Snapshot,
    Scroll,
    Pause,
    Insert,
    Home,
    Delete,
    End,
    PageDown,
    PageUp,
    Left,
    Up,
    Right,
    Down,
    Backspace,
    Enter,
    Space,
    Numlock,
    Numpad0,
    Numpad1,
    Numpad2,
    Numpad3,
    Numpad4,
    Numpad5,
    Numpad6,
    Numpad7,
    Numpad8,
    Numpad9,
    NumpadAdd,
    NumpadDivide,
    NumpadDecimal,
    NumpadEnter,
    NumpadMultiply,
    NumpadSubtract,
    Apostrophe,
    Backslash,
    Capital,
    Comma,
    Equals,
    Grave,
    LAlt,
    LBracket,
    LControl,
    LShift,
    LWin,
    Minus,
    Period,
    RAlt,
    RBracket,
    RControl,
    RShift,
    RWin,
    Semicolon,
    Slash,
    Tab,
    Unmapped,
}

/// The display label of a toolkit key; empty for unmapped codes.
pub open spec fn local_label(k: LocalKey) -> Seq<char> {
    match k {
        LocalKey::Key1 => "1"@,
        LocalKey::Key2 => "2"@,
        LocalKey::Key3 => "3"@,
        LocalKey::Key4 => "4"@,
        LocalKey::Key5 => "5"@,
        LocalKey::Key6 => "6"@,
        LocalKey::Key7 => "7"@,
        LocalKey::Key8 => "8"@,
        LocalKey::Key9 => "9"@,
        LocalKey::Key0 => "0"@,
        LocalKey::A => "A"@,
        LocalKey::B => "B"@,
        LocalKey::C => "C"@,
        LocalKey::D => "D"@,
        LocalKey::E => "E"@,
        LocalKey::F => "F"@,
        LocalKey::G => "G"@,
        LocalKey::H => "H"@,
        LocalKey::I => "I"@,
        LocalKey::J => "J"@,
        LocalKey::K => "K"@,
        LocalKey::L => "L"@,
        LocalKey::M => "M"@,
        LocalKey::N => "N"@,
        LocalKey::O => "O"@,
        LocalKey::P => "P"@,
        LocalKey::Q => "Q"@,
        LocalKey::R => "R"@,
        LocalKey::S => "S"@,
        LocalKey::T => "T"@,
        LocalKey::U => "U"@,
        LocalKey::V => "V"@,
        LocalKey::W => "W"@,
        LocalKey::X => "X"@,
        LocalKey::Y => "Y"@,
        LocalKey::Z => "Z"@,
        LocalKey::Escape => "Esc"@,
        LocalKey::F1 => "F1"@,
        LocalKey::F2 => "F2"@,
        LocalKey::F3 => "F3"@,
        LocalKey::F4 => "F4"@,
        LocalKey::F5 => "F5"@,
        LocalKey::F6 => "F6"@,
        LocalKey::F7 => "F7"@,
        LocalKey::F8 => "F8"@,
        LocalKey::F9 => "F9"@,
        LocalKey::F10 => "F10"@,
        LocalKey::F11 => "F11"@,
        LocalKey::F12 => "F12"@,
        LocalKey::Snapshot => "PrtSc"@,
        LocalKey::Scroll => "ScrLk"@,
        LocalKey::Pause => "Pause"@,
        LocalKey::Insert => "Ins"@,
        LocalKey::Home => "Home"@,
        LocalKey::Delete => "Del"@,
        LocalKey::End => "End"@,
        LocalKey::PageDown => "PgDn"@,
        LocalKey::PageUp => "PgUp"@,
        LocalKey::Left => "Left"@,
        LocalKey::Up => "Up"@,
        LocalKey::Right => "Right"@,
        LocalKey::Down => "Down"@,
        LocalKey::Backspace => "Backspace"@,
        LocalKey::Enter => "Enter"@,
        LocalKey::Space => "Space"@,
        LocalKey::Numlock => "NumLock"@,
        LocalKey::Numpad0 => "0"@,
        LocalKey::Numpad1 => "1"@,
        LocalKey::Numpad2 => "2"@,
        LocalKey::Numpad3 => "3"@,
        LocalKey::Numpad4 => "4"@,
        LocalKey::Numpad5 => "5"@,
        LocalKey::Numpad6 => "6"@,
        LocalKey::Numpad7 => "7"@,
        LocalKey::Numpad8 => "8"@,
        LocalKey::Numpad9 => "9"@,
        LocalKey::NumpadAdd => "+"@,
        LocalKey::NumpadDivide => "/"@,
        LocalKey::NumpadDecimal => "."@,
        LocalKey::NumpadEnter => "Enter"@,
        LocalKey::NumpadMultiply => "*"@,
        LocalKey::NumpadSubtract => "-"@,
        LocalKey::Apostrophe => "'"@,
        LocalKey::Backslash => "\\"@,
        LocalKey::Capital => "Caps"@,
        LocalKey::Comma => ","@,
        LocalKey::Equals => "="@,
        LocalKey::Grave => "`"@,
        LocalKey::LAlt => "Alt"@,
        LocalKey::LBracket => "["@,
        LocalKey::LControl => "Ctrl"@,
        LocalKey::LShift => "Shift"@,
        LocalKey::LWin => "Meta"@,
        LocalKey::Minus => "-"@,
        LocalKey::Period => "."@,
        LocalKey::RAlt => "AltGr"@,
        LocalKey::RBracket => "]"@,
        LocalKey::RControl => "Ctrl"@,
        LocalKey::RShift => "Shift"@,
        LocalKey::RWin => "Meta"@,
        LocalKey::Semicolon => ";"@,
        LocalKey::Slash => "/"@,
        LocalKey::Tab => "Tab"@,
        LocalKey::Unmapped => ""@,
    }
}

/// Resolves a toolkit key to its display label; unmapped codes yield the
/// empty label rather than an error.
pub fn iced_to_key(key: &LocalKey) -> (label: &'static str)
    ensures
        label@ == local_label(*key),
{
    match key {
        LocalKey::Key1 => "1",
        LocalKey::Key2 => "2",
        LocalKey::Key3 => "3",
        LocalKey::Key4 => "4",
        LocalKey::Key5 => "5",
        LocalKey::Key6 => "6",
        LocalKey::Key7 => "7",
        LocalKey::Key8 => "8",
        LocalKey::Key9 => "9",
        LocalKey::Key0 => "0",
        LocalKey::A => "A",
        LocalKey::B => "B",
        LocalKey::C => "C",
        LocalKey::D => "D",
        LocalKey::E => "E",
        LocalKey::F => "F",
        LocalKey::G => "G",
        LocalKey::H => "H",
        LocalKey::I => "I",
        LocalKey::J => "J",
        LocalKey::K => "K",
        LocalKey::L => "L",
        LocalKey::M => "M",
        LocalKey::N => "N",
        LocalKey::O => "O",
        LocalKey::P => "P",
        LocalKey::Q => "Q",
        LocalKey::R => "R",
        LocalKey::S => "S",
        LocalKey::T => "T",
        LocalKey::U => "U",
        LocalKey::V => "V",
        LocalKey::W => "W",
        LocalKey::X => "X",
        LocalKey::Y => "Y",
        LocalKey::Z => "Z",
        LocalKey::Escape => "Esc",
        LocalKey::F1 => "F1",
        LocalKey::F2 => "F2",
        LocalKey::F3 => "F3",
        LocalKey::F4 => "F4",
        LocalKey::F5 => "F5",
        LocalKey::F6 => "F6",
        LocalKey::F7 => "F7",
        LocalKey::F8 => "F8",
        LocalKey::F9 => "F9",
        LocalKey::F10 => "F10",
        LocalKey::F11 => "F11",
        LocalKey::F12 => "F12",
        LocalKey::Snapshot => "PrtSc",
        LocalKey::Scroll => "ScrLk",
        LocalKey::Pause => "Pause",
        LocalKey::Insert => "Ins",
        LocalKey::Home => "Home",
        LocalKey::Delete => "Del",
        LocalKey::End => "End",
        LocalKey::PageDown => "PgDn",
        LocalKey::PageUp => "PgUp",
        LocalKey::Left => "Left",
        LocalKey::Up => "Up",
        LocalKey::Right => "Right",
        LocalKey::Down => "Down",
        LocalKey::Backspace => "Backspace",
        LocalKey::Enter => "Enter",
        LocalKey::Space => "Space",
        LocalKey::Numlock => "NumLock",
        LocalKey::Numpad0 => "0",
        LocalKey::Numpad1 => "1",
        LocalKey::Numpad2 => "2",
        LocalKey::Numpad3 => "3",
        LocalKey::Numpad4 => "4",
        LocalKey::Numpad5 => "5",
        LocalKey::Numpad6 => "6",
        LocalKey::Numpad7 => "7",
        LocalKey::Numpad8 => "8",
        LocalKey::Numpad9 => "9",
        LocalKey::NumpadAdd => "+",
        LocalKey::NumpadDivide => "/",
        LocalKey::NumpadDecimal => ".",
        LocalKey::NumpadEnter => "Enter",
        LocalKey::NumpadMultiply => "*",
        LocalKey::NumpadSubtract => "-",
        LocalKey::Apostrophe => "'",
        LocalKey::Backslash => "\\",
        LocalKey::Capital => "Caps",
        LocalKey::Comma => ",",
        LocalKey::Equals => "=",
        LocalKey::Grave => "`",
        LocalKey::LAlt => "Alt",
        LocalKey::LBracket => "[",
        LocalKey::LControl => "Ctrl",
        LocalKey::LShift => "Shift",
        LocalKey::LWin => "Meta",
        LocalKey::Minus => "-",
        LocalKey::Period => ".",
        LocalKey::RAlt => "AltGr",
        LocalKey::RBracket => "]",
        LocalKey::RControl => "Ctrl",
        LocalKey::RShift => "Shift",
        LocalKey::RWin => "Meta",
        LocalKey::Semicolon => ";",
        LocalKey::Slash => "/",
        LocalKey::Tab => "Tab",
        LocalKey::Unmapped => "",
    }
}

} // verus!
