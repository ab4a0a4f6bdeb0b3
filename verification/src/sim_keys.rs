//! Keys and buttons as the input simulator of Windows and macOS plays them:
//! letters, digits and symbols are typed as characters, the other keys by
//! name.

use vstd::prelude::*;
use crate::capture::{char_key, digit_key, letter_key};
use crate::network::{KeyCode, MouseButton};

verus! {

/// A key for the simulator: a character to type, or a named key.
#[derive(Clone, Copy, Debug, PartialEq, Eq, Structural)]
pub enum SimKey {
    Unicode(char),
    Alt,
    Control,
    Shift,
    Meta,
    Backspace,
    CapsLock,
    Delete,
    DownArrow,
    End,
    Escape,
    Home,
    Insert,
    LeftArrow,
    PageDown,
    PageUp,
    Return,
    RightArrow,
    Space,
    Tab,
    UpArrow,
    F1,
    F2,
    F3,
    F4,
    F5,
    F6,
    F7,
    F8,
    F9,
    F10,
    F11,
    F12,
    F13,
    F14,
    F15,
    F16,
    F17,
    F18,
    F19,
    F20,
    F21,
    F22,
    F23,
    F24,
    MediaNextTrack,
    MediaPrevTrack,
    MediaPlayPause,
    MediaStop,
    VolumeUp,
    VolumeDown,
    VolumeMute,
    Print,
    Pause,
    LMenu,
    Other(u32),
}

/// The simulator key that plays a protocol key.
pub open spec fn sim_key_of(key: KeyCode) -> SimKey {
    match key {
        KeyCode::A => SimKey::Unicode('a'),
        KeyCode::B => SimKey::Unicode('b'),
        KeyCode::C => SimKey::Unicode('c'),
        KeyCode::D => SimKey::Unicode('d'),
        KeyCode::E => SimKey::Unicode('e'),
        KeyCode::F => SimKey::Unicode('f'),
        KeyCode::G => SimKey::Unicode('g'),
        KeyCode::H => SimKey::Unicode('h'),
        KeyCode::I => SimKey::Unicode('i'),
        KeyCode::J => SimKey::Unicode('j'),
        KeyCode::K => SimKey::Unicode('k'),
        KeyCode::L => SimKey::Unicode('l'),
        KeyCode::M => SimKey::Unicode('m'),
        KeyCode::N => SimKey::Unicode('n'),
        KeyCode::O => SimKey::Unicode('o'),
        KeyCode::P => SimKey::Unicode('p'),
        KeyCode::Q => SimKey::Unicode('q'),
        KeyCode::R => SimKey::Unicode('r'),
        KeyCode::S => SimKey::Unicode('s'),
        KeyCode::T => SimKey::Unicode('t'),
        KeyCode::U => SimKey::Unicode('u'),
        KeyCode::V => SimKey::Unicode('v'),
        KeyCode::W => SimKey::Unicode('w'),
        KeyCode::X => SimKey::Unicode('x'),
        KeyCode::Y => SimKey::Unicode('y'),
        KeyCode::Z => SimKey::Unicode('z'),
        KeyCode::Num0 => SimKey::Unicode('0'),
        KeyCode::Num1 => SimKey::Unicode('1'),
        KeyCode::Num2 => SimKey::Unicode('2'),
        KeyCode::Num3 => SimKey::Unicode('3'),
        KeyCode::Num4 => SimKey::Unicode('4'),
        KeyCode::Num5 => SimKey::Unicode('5'),
        KeyCode::Num6 => SimKey::Unicode('6'),
        KeyCode::Num7 => SimKey::Unicode('7'),
        KeyCode::Num8 => SimKey::Unicode('8'),
        KeyCode::Num9 => SimKey::Unicode('9'),
        KeyCode::Minus => SimKey::Unicode('-'),
        KeyCode::Equals => SimKey::Unicode('='),
        KeyCode::LeftBracket => SimKey::Unicode('['),
        KeyCode::RightBracket => SimKey::Unicode(']'),
        KeyCode::Backslash => SimKey::Unicode('\\'),
        KeyCode::Semicolon => SimKey::Unicode(';'),
        KeyCode::Quote => SimKey::Unicode('\''),
        KeyCode::Comma => SimKey::Unicode(','),
        KeyCode::Period => SimKey::Unicode('.'),
        KeyCode::Slash => SimKey::Unicode('/'),
        KeyCode::Backtick => SimKey::Unicode('`'),
        KeyCode::Alt | KeyCode::Option => SimKey::Alt,
        KeyCode::AltGr => SimKey::Alt,
        KeyCode::ControlLeft | KeyCode::ControlRight => SimKey::Control,
        KeyCode::ShiftLeft | KeyCode::ShiftRight => SimKey::Shift,
        KeyCode::MetaLeft | KeyCode::MetaRight | KeyCode::Super => SimKey::Meta,
        KeyCode::Backspace => SimKey::Backspace,
        KeyCode::CapsLock => SimKey::CapsLock,
        KeyCode::Delete => SimKey::Delete,
        KeyCode::DownArrow => SimKey::DownArrow,
        KeyCode::End => SimKey::End,
        KeyCode::Escape => SimKey::Escape,
        KeyCode::Home => SimKey::Home,
        KeyCode::Insert => SimKey::Insert,
        KeyCode::LeftArrow => SimKey::LeftArrow,
        KeyCode::PageDown => SimKey::PageDown,
        KeyCode::PageUp => SimKey::PageUp,
        KeyCode::Return => SimKey::Return,
        KeyCode::RightArrow => SimKey::RightArrow,
        KeyCode::Space => SimKey::Space,
        KeyCode::Tab => SimKey::Tab,
        KeyCode::UpArrow => SimKey::UpArrow,
        KeyCode::F1 => SimKey::F1,
        KeyCode::F2 => SimKey::F2,
        KeyCode::F3 => SimKey::F3,
        KeyCode::F4 => SimKey::F4,
        KeyCode::F5 => SimKey::F5,
        KeyCode::F6 => SimKey::F6,
        KeyCode::F7 => SimKey::F7,
        KeyCode::F8 => SimKey::F8,
        KeyCode::F9 => SimKey::F9,
        KeyCode::F10 => SimKey::F10,
        KeyCode::F11 => SimKey::F11,
        KeyCode::F12 => SimKey::F12,
        KeyCode::F13 => SimKey::F13,
        KeyCode::F14 => SimKey::F14,
        KeyCode::F15 => SimKey::F15,
        KeyCode::F16 => SimKey::F16,
        KeyCode::F17 => SimKey::F17,
        KeyCode::F18 => SimKey::F18,
        KeyCode::F19 => SimKey::F19,
        KeyCode::F20 => SimKey::F20,
        KeyCode::F21 => SimKey::F21,
        KeyCode::F22 => SimKey::F22,
        KeyCode::F23 => SimKey::F23,
        KeyCode::F24 => SimKey::F24,
        KeyCode::Numpad0 => SimKey::Unicode('0'),
        KeyCode::Numpad1 => SimKey::Unicode('1'),
        KeyCode::Numpad2 => SimKey::Unicode('2'),
        KeyCode::Numpad3 => SimKey::Unicode('3'),
        KeyCode::Numpad4 => SimKey::Unicode('4'),
        KeyCode::Numpad5 => SimKey::Unicode('5'),
        KeyCode::Numpad6 => SimKey::Unicode('6'),
        KeyCode::Numpad7 => SimKey::Unicode('7'),
        KeyCode::Numpad8 => SimKey::Unicode('8'),
        KeyCode::Numpad9 => SimKey::Unicode('9'),
        KeyCode::NumpadAdd => SimKey::Unicode('+'),
        KeyCode::NumpadSubtract => SimKey::Unicode('-'),
        KeyCode::NumpadMultiply => SimKey::Unicode('*'),
        KeyCode::NumpadDivide => SimKey::Unicode('/'),
        KeyCode::NumpadDecimal => SimKey::Unicode('.'),
        KeyCode::NumpadEnter => SimKey::Return,
        KeyCode::MediaNext => SimKey::MediaNextTrack,
        KeyCode::MediaPrev => SimKey::MediaPrevTrack,
        KeyCode::MediaPlayPause => SimKey::MediaPlayPause,
        KeyCode::MediaStop => SimKey::MediaStop,
        KeyCode::VolumeUp => SimKey::VolumeUp,
        KeyCode::VolumeDown => SimKey::VolumeDown,
        KeyCode::VolumeMute => SimKey::VolumeMute,
        KeyCode::PrintScreen => SimKey::Print,
        KeyCode::ScrollLock => SimKey::Other(71),
        KeyCode::Pause => SimKey::Pause,
        KeyCode::Menu => SimKey::LMenu,
        KeyCode::Unicode(c) => SimKey::Unicode(c),
        KeyCode::Other(code) => SimKey::Other(code),
    }
}

/// Maps a protocol key to the key the simulator plays. Every key is played:
/// characters and numpad digits as the characters they type, modifiers and
/// other keys by name.
pub fn keycode_to_sim_key(key: &KeyCode) -> (r: Option<SimKey>)
    ensures
        r == Some(sim_key_of(*key)),
{
    Some(match key {
        KeyCode::A => SimKey::Unicode('a'),
        KeyCode::B => SimKey::Unicode('b'),
        KeyCode::C => SimKey::Unicode('c'),
        KeyCode::D => SimKey::Unicode('d'),
        KeyCode::E => SimKey::Unicode('e'),
        KeyCode::F => SimKey::Unicode('f'),
        KeyCode::G => SimKey::Unicode('g'),
        KeyCode::H => SimKey::Unicode('h'),
        KeyCode::I => SimKey::Unicode('i'),
        KeyCode::J => SimKey::Unicode('j'),
        KeyCode::K => SimKey::Unicode('k'),
        KeyCode::L => SimKey::Unicode('l'),
        KeyCode::M => SimKey::Unicode('m'),
        KeyCode::N => SimKey::Unicode('n'),
        KeyCode::O => SimKey::Unicode('o'),
        KeyCode::P => SimKey::Unicode('p'),
        KeyCode::Q => SimKey::Unicode('q'),
        KeyCode::R => SimKey::Unicode('r'),
        KeyCode::S => SimKey::Unicode('s'),
        KeyCode::T => SimKey::Unicode('t'),
        KeyCode::U => SimKey::Unicode('u'),
        KeyCode::V => SimKey::Unicode('v'),
        KeyCode::W => SimKey::Unicode('w'),
        KeyCode::X => SimKey::Unicode('x'),
        KeyCode::Y => SimKey::Unicode('y'),
        KeyCode::Z => SimKey::Unicode('z'),
        KeyCode::Num0 => SimKey::Unicode('0'),
        KeyCode::Num1 => SimKey::Unicode('1'),
        KeyCode::Num2 => SimKey::Unicode('2'),
        KeyCode::Num3 => SimKey::Unicode('3'),
        KeyCode::Num4 => SimKey::Unicode('4'),
        KeyCode::Num5 => SimKey::Unicode('5'),
        KeyCode::Num6 => SimKey::Unicode('6'),
        KeyCode::Num7 => SimKey::Unicode('7'),
        KeyCode::Num8 => SimKey::Unicode('8'),
        KeyCode::Num9 => SimKey::Unicode('9'),
        KeyCode::Minus => SimKey::Unicode('-'),
        KeyCode::Equals => SimKey::Unicode('='),
        KeyCode::LeftBracket => SimKey::Unicode('['),
        KeyCode::RightBracket => SimKey::Unicode(']'),
        KeyCode::Backslash => SimKey::Unicode('\\'),
        KeyCode::Semicolon => SimKey::Unicode(';'),
        KeyCode::Quote => SimKey::Unicode('\''),
        KeyCode::Comma => SimKey::Unicode(','),
        KeyCode::Period => SimKey::Unicode('.'),
        KeyCode::Slash => SimKey::Unicode('/'),
        KeyCode::Backtick => SimKey::Unicode('`'),
        KeyCode::Alt | KeyCode::Option => SimKey::Alt,
        KeyCode::AltGr => SimKey::Alt,
        KeyCode::ControlLeft | KeyCode::ControlRight => SimKey::Control,
        KeyCode::ShiftLeft | KeyCode::ShiftRight => SimKey::Shift,
        KeyCode::MetaLeft | KeyCode::MetaRight | KeyCode::Super => SimKey::Meta,
        KeyCode::Backspace => SimKey::Backspace,
        KeyCode::CapsLock => SimKey::CapsLock,
        KeyCode::Delete => SimKey::Delete,
        KeyCode::DownArrow => SimKey::DownArrow,
        KeyCode::End => SimKey::End,
        KeyCode::Escape => SimKey::Escape,
        KeyCode::Home => SimKey::Home,
        KeyCode::Insert => SimKey::Insert,
        KeyCode::LeftArrow => SimKey::LeftArrow,
        KeyCode::PageDown => SimKey::PageDown,
        KeyCode::PageUp => SimKey::PageUp,
        KeyCode::Return => SimKey::Return,
        KeyCode::RightArrow => SimKey::RightArrow,
        KeyCode::Space => SimKey::Space,
        KeyCode::Tab => SimKey::Tab,
        KeyCode::UpArrow => SimKey::UpArrow,
        KeyCode::F1 => SimKey::F1,
        KeyCode::F2 => SimKey::F2,
        KeyCode::F3 => SimKey::F3,
        KeyCode::F4 => SimKey::F4,
        KeyCode::F5 => SimKey::F5,
        KeyCode::F6 => SimKey::F6,
        KeyCode::F7 => SimKey::F7,
        KeyCode::F8 => SimKey::F8,
        KeyCode::F9 => SimKey::F9,
        KeyCode::F10 => SimKey::F10,
        KeyCode::F11 => SimKey::F11,
        KeyCode::F12 => SimKey::F12,
        KeyCode::F13 => SimKey::F13,
        KeyCode::F14 => SimKey::F14,
        KeyCode::F15 => SimKey::F15,
        KeyCode::F16 => SimKey::F16,
        KeyCode::F17 => SimKey::F17,
        KeyCode::F18 => SimKey::F18,
        KeyCode::F19 => SimKey::F19,
        KeyCode::F20 => SimKey::F20,
        KeyCode::F21 => SimKey::F21,
        KeyCode::F22 => SimKey::F22,
        KeyCode::F23 => SimKey::F23,
        KeyCode::F24 => SimKey::F24,
        KeyCode::Numpad0 => SimKey::Unicode('0'),
        KeyCode::Numpad1 => SimKey::Unicode('1'),
        KeyCode::Numpad2 => SimKey::Unicode('2'),
        KeyCode::Numpad3 => SimKey::Unicode('3'),
        KeyCode::Numpad4 => SimKey::Unicode('4'),
        KeyCode::Numpad5 => SimKey::Unicode('5'),
        KeyCode::Numpad6 => SimKey::Unicode('6'),
        KeyCode::Numpad7 => SimKey::Unicode('7'),
        KeyCode::Numpad8 => SimKey::Unicode('8'),
        KeyCode::Numpad9 => SimKey::Unicode('9'),
        KeyCode::NumpadAdd => SimKey::Unicode('+'),
        KeyCode::NumpadSubtract => SimKey::Unicode('-'),
        KeyCode::NumpadMultiply => SimKey::Unicode('*'),
        KeyCode::NumpadDivide => SimKey::Unicode('/'),
        KeyCode::NumpadDecimal => SimKey::Unicode('.'),
        KeyCode::NumpadEnter => SimKey::Return,
        KeyCode::MediaNext => SimKey::MediaNextTrack,
        KeyCode::MediaPrev => SimKey::MediaPrevTrack,
        KeyCode::MediaPlayPause => SimKey::MediaPlayPause,
        KeyCode::MediaStop => SimKey::MediaStop,
        KeyCode::VolumeUp => SimKey::VolumeUp,
        KeyCode::VolumeDown => SimKey::VolumeDown,
        KeyCode::VolumeMute => SimKey::VolumeMute,
        KeyCode::PrintScreen => SimKey::Print,
        KeyCode::ScrollLock => SimKey::Other(71),
        KeyCode::Pause => SimKey::Pause,
        KeyCode::Menu => SimKey::LMenu,
        KeyCode::Unicode(c) => SimKey::Unicode(*c),
        KeyCode::Other(code) => SimKey::Other(*code),
    })
}

/// The button the simulator presses for a protocol button: the two extra
/// buttons are played as the left one.
pub open spec fn sim_button_of(button: MouseButton) -> MouseButton {
    match button {
        MouseButton::Left => MouseButton::Left,
        MouseButton::Right => MouseButton::Right,
        MouseButton::Middle => MouseButton::Middle,
        _ => MouseButton::Left,
    }
}

/// Maps a protocol button to the button the simulator presses.
pub fn mousebutton_to_sim_button(button: &MouseButton) -> (r: MouseButton)
    ensures
        r == sim_button_of(*button),
{
    match button {
        MouseButton::Left => MouseButton::Left,
        MouseButton::Right => MouseButton::Right,
        MouseButton::Middle => MouseButton::Middle,
        _ => MouseButton::Left,
    }
}

/// The lower-case form of an ASCII letter; any other character unchanged.
pub open spec fn ascii_lower(c: char) -> char {
    if 'A' <= c && c <= 'Z' {
        (c as u32 + 32) as char
    } else {
        c
    }
}

proof fn lemma_letter_types(i: u32)
    requires
        i < 26,
    ensures
        sim_key_of(letter_key(i)) == SimKey::Unicode(('a' as u32 + i) as char),
{
}

proof fn lemma_digit_types(i: u32)
    requires
        i < 10,
    ensures
        sim_key_of(digit_key(i)) == SimKey::Unicode(('0' as u32 + i) as char),
{
}

/// Law: a key that types an ASCII letter or digit is played by the simulator
/// as that character (a letter in lower case), so typing a character on one
/// machine types the same character on the other.
pub proof fn lemma_characters_type_themselves(c: char)
    requires
        char_key(c) is Some,
    ensures
        sim_key_of(char_key(c)->0) == SimKey::Unicode(ascii_lower(c)),
{
    if 'a' <= c && c <= 'z' {
        lemma_letter_types((c as u32 - 'a' as u32) as u32);
    } else if 'A' <= c && c <= 'Z' {
        lemma_letter_types((c as u32 - 'A' as u32) as u32);
    } else {
        lemma_digit_types((c as u32 - '0' as u32) as u32);
    }
}

} // verus!
