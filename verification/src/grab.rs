//! Capture decisions of the Windows and macOS backend, which grabs input
//! through a global hook: the keys and buttons that hook reports, and what
//! the hook does with each event.

use vstd::prelude::*;
use crate::capture::{CaptureState, InputAction};
use crate::network::{KeyCode, MouseButton};

verus! {

/// A key as the global input hook reports it.
#[derive(Clone, Copy, Debug, PartialEq, Eq, Structural)]
pub enum CapturedKey {
    KeyA,
    KeyB,
    KeyC,
    KeyD,
    KeyE,
    KeyF,
    KeyG,
    KeyH,
    KeyI,
    KeyJ,
    KeyK,
    KeyL,
    KeyM,
    KeyN,
    KeyO,
    KeyP,
    KeyQ,
    KeyR,
    KeyS,
    KeyT,
    KeyU,
    KeyV,
    KeyW,
    KeyX,
    KeyY,
    KeyZ,
    Num0,
    Num1,
    Num2,
    Num3,
    Num4,
    Num5,
    Num6,
    Num7,
    Num8,
    Num9,
    Alt,
    AltGr,
    ControlLeft,
    ControlRight,
    ShiftLeft,
    ShiftRight,
    MetaLeft,
    MetaRight,
    UpArrow,
    DownArrow,
    LeftArrow,
    RightArrow,
    PageUp,
    PageDown,
    Home,
    End,
    Insert,
    Delete,
    Backspace,
    Space,
    Tab,
    Return,
    Escape,
    CapsLock,
    F1,
    F2,
    F3,
    F4,
    F5,
    F6,
    F7,
    F8,
    F9,
    F10,
    F11,
    F12,
    Minus,
    Equal,
    LeftBracket,
    RightBracket,
    BackSlash,
    SemiColon,
    Quote,
    Comma,
    Dot,
    Slash,
    BackQuote,
    IntlBackslash,
    Kp0,
    Kp1,
    Kp2,
    Kp3,
    Kp4,
    Kp5,
    Kp6,
    Kp7,
    Kp8,
    Kp9,
    KpPlus,
    KpMinus,
    KpMultiply,
    KpDivide,
    KpReturn,
    KpDelete,
    PrintScreen,
    ScrollLock,
    Pause,
    NumLock,
    Function,
    Unknown(u32),
}

/// The protocol key a hooked key is forwarded as, if it is forwarded. Keys
/// the protocol has no name for (Num Lock, Fn) go by their HID usage code.
pub open spec fn keycode_of_captured(key: CapturedKey) -> Option<KeyCode> {
    match key {
        CapturedKey::KeyA => Some(KeyCode::A),
        CapturedKey::KeyB => Some(KeyCode::B),
        CapturedKey::KeyC => Some(KeyCode::C),
        CapturedKey::KeyD => Some(KeyCode::D),
        CapturedKey::KeyE => Some(KeyCode::E),
        CapturedKey::KeyF => Some(KeyCode::F),
        CapturedKey::KeyG => Some(KeyCode::G),
        CapturedKey::KeyH => Some(KeyCode::H),
        CapturedKey::KeyI => Some(KeyCode::I),
        CapturedKey::KeyJ => Some(KeyCode::J),
        CapturedKey::KeyK => Some(KeyCode::K),
        CapturedKey::KeyL => Some(KeyCode::L),
        CapturedKey::KeyM => Some(KeyCode::M),
        CapturedKey::KeyN => Some(KeyCode::N),
        CapturedKey::KeyO => Some(KeyCode::O),
        CapturedKey::KeyP => Some(KeyCode::P),
        CapturedKey::KeyQ => Some(KeyCode::Q),
        CapturedKey::KeyR => Some(KeyCode::R),
        CapturedKey::KeyS => Some(KeyCode::S),
        CapturedKey::KeyT => Some(KeyCode::T),
        CapturedKey::KeyU => Some(KeyCode::U),
        CapturedKey::KeyV => Some(KeyCode::V),
        CapturedKey::KeyW => Some(KeyCode::W),
        CapturedKey::KeyX => Some(KeyCode::X),
        CapturedKey::KeyY => Some(KeyCode::Y),
        CapturedKey::KeyZ => Some(KeyCode::Z),
        CapturedKey::Num0 => Some(KeyCode::Num0),
        CapturedKey::Num1 => Some(KeyCode::Num1),
        CapturedKey::Num2 => Some(KeyCode::Num2),
        CapturedKey::Num3 => Some(KeyCode::Num3),
        CapturedKey::Num4 => Some(KeyCode::Num4),
        CapturedKey::Num5 => Some(KeyCode::Num5),
        CapturedKey::Num6 => Some(KeyCode::Num6),
        CapturedKey::Num7 => Some(KeyCode::Num7),
        CapturedKey::Num8 => Some(KeyCode::Num8),
        CapturedKey::Num9 => Some(KeyCode::Num9),
        CapturedKey::Alt => Some(KeyCode::Alt),
        CapturedKey::AltGr => Some(KeyCode::AltGr),
        CapturedKey::ControlLeft => Some(KeyCode::ControlLeft),
        CapturedKey::ControlRight => Some(KeyCode::ControlRight),
        CapturedKey::ShiftLeft => Some(KeyCode::ShiftLeft),
        CapturedKey::ShiftRight => Some(KeyCode::ShiftRight),
        CapturedKey::MetaLeft => Some(KeyCode::MetaLeft),
        CapturedKey::MetaRight => Some(KeyCode::MetaRight),
        CapturedKey::UpArrow => Some(KeyCode::UpArrow),
        CapturedKey::DownArrow => Some(KeyCode::DownArrow),
        CapturedKey::LeftArrow => Some(KeyCode::LeftArrow),
        CapturedKey::RightArrow => Some(KeyCode::RightArrow),
        CapturedKey::PageUp => Some(KeyCode::PageUp),
        CapturedKey::PageDown => Some(KeyCode::PageDown),
        CapturedKey::Home => Some(KeyCode::Home),
        CapturedKey::End => Some(KeyCode::End),
        CapturedKey::Insert => Some(KeyCode::Insert),
        CapturedKey::Delete => Some(KeyCode::Delete),
        CapturedKey::Backspace => Some(KeyCode::Backspace),
        CapturedKey::Space => Some(KeyCode::Space),
        CapturedKey::Tab => Some(KeyCode::Tab),
        CapturedKey::Return => Some(KeyCode::Return),
        CapturedKey::Escape => Some(KeyCode::Escape),
        CapturedKey::CapsLock => Some(KeyCode::CapsLock),
        CapturedKey::F1 => Some(KeyCode::F1),
        CapturedKey::F2 => Some(KeyCode::F2),
        CapturedKey::F3 => Some(KeyCode::F3),
        CapturedKey::F4 => Some(KeyCode::F4),
        CapturedKey::F5 => Some(KeyCode::F5),
        CapturedKey::F6 => Some(KeyCode::F6),
        CapturedKey::F7 => Some(KeyCode::F7),
        CapturedKey::F8 => Some(KeyCode::F8),
        CapturedKey::F9 => Some(KeyCode::F9),
        CapturedKey::F10 => Some(KeyCode::F10),
        CapturedKey::F11 => Some(KeyCode::F11),
        CapturedKey::F12 => Some(KeyCode::F12),
        CapturedKey::Minus => Some(KeyCode::Minus),
        CapturedKey::Equal => Some(KeyCode::Equals),
        CapturedKey::LeftBracket => Some(KeyCode::LeftBracket),
        CapturedKey::RightBracket => Some(KeyCode::RightBracket),
        CapturedKey::BackSlash => Some(KeyCode::Backslash),
        CapturedKey::SemiColon => Some(KeyCode::Semicolon),
        CapturedKey::Quote => Some(KeyCode::Quote),
        CapturedKey::Comma => Some(KeyCode::Comma),
        CapturedKey::Dot => Some(KeyCode::Period),
        CapturedKey::Slash => Some(KeyCode::Slash),
        CapturedKey::BackQuote => Some(KeyCode::Backtick),
        CapturedKey::IntlBackslash => Some(KeyCode::Backslash),
        CapturedKey::Kp0 => Some(KeyCode::Numpad0),
        CapturedKey::Kp1 => Some(KeyCode::Numpad1),
        CapturedKey::Kp2 => Some(KeyCode::Numpad2),
        CapturedKey::Kp3 => Some(KeyCode::Numpad3),
        CapturedKey::Kp4 => Some(KeyCode::Numpad4),
        CapturedKey::Kp5 => Some(KeyCode::Numpad5),
        CapturedKey::Kp6 => Some(KeyCode::Numpad6),
        CapturedKey::Kp7 => Some(KeyCode::Numpad7),
        CapturedKey::Kp8 => Some(KeyCode::Numpad8),
        CapturedKey::Kp9 => Some(KeyCode::Numpad9),
        CapturedKey::KpPlus => Some(KeyCode::NumpadAdd),
        CapturedKey::KpMinus => Some(KeyCode::NumpadSubtract),
        CapturedKey::KpMultiply => Some(KeyCode::NumpadMultiply),
        CapturedKey::KpDivide => Some(KeyCode::NumpadDivide),
        CapturedKey::KpReturn => Some(KeyCode::NumpadEnter),
        CapturedKey::KpDelete => Some(KeyCode::NumpadDecimal),
        CapturedKey::PrintScreen => Some(KeyCode::PrintScreen),
        CapturedKey::ScrollLock => Some(KeyCode::ScrollLock),
        CapturedKey::Pause => Some(KeyCode::Pause),
        CapturedKey::NumLock => Some(KeyCode::Other(69)),
        CapturedKey::Function => Some(KeyCode::Other(0x74)),
        CapturedKey::Unknown(_) => None,
    }
}

/// Maps a hooked key to the protocol key it is forwarded as, if any.
pub fn rdev_key_to_keycode(key: &CapturedKey) -> (r: Option<KeyCode>)
    ensures
        r == keycode_of_captured(*key),
{
    match key {
        CapturedKey::KeyA => Some(KeyCode::A),
        CapturedKey::KeyB => Some(KeyCode::B),
        CapturedKey::KeyC => Some(KeyCode::C),
        CapturedKey::KeyD => Some(KeyCode::D),
        CapturedKey::KeyE => Some(KeyCode::E),
        CapturedKey::KeyF => Some(KeyCode::F),
        CapturedKey::KeyG => Some(KeyCode::G),
        CapturedKey::KeyH => Some(KeyCode::H),
        CapturedKey::KeyI => Some(KeyCode::I),
        CapturedKey::KeyJ => Some(KeyCode::J),
        CapturedKey::KeyK => Some(KeyCode::K),
        CapturedKey::KeyL => Some(KeyCode::L),
        CapturedKey::KeyM => Some(KeyCode::M),
        CapturedKey::KeyN => Some(KeyCode::N),
        CapturedKey::KeyO => Some(KeyCode::O),
        CapturedKey::KeyP => Some(KeyCode::P),
        CapturedKey::KeyQ => Some(KeyCode::Q),
        CapturedKey::KeyR => Some(KeyCode::R),
        CapturedKey::KeyS => Some(KeyCode::S),
        CapturedKey::KeyT => Some(KeyCode::T),
        CapturedKey::KeyU => Some(KeyCode::U),
        CapturedKey::KeyV => Some(KeyCode::V),
        CapturedKey::KeyW => Some(KeyCode::W),
        CapturedKey::KeyX => Some(KeyCode::X),
        CapturedKey::KeyY => Some(KeyCode::Y),
        CapturedKey::KeyZ => Some(KeyCode::Z),
        CapturedKey::Num0 => Some(KeyCode::Num0),
        CapturedKey::Num1 => Some(KeyCode::Num1),
        CapturedKey::Num2 => Some(KeyCode::Num2),
        CapturedKey::Num3 => Some(KeyCode::Num3),
        CapturedKey::Num4 => Some(KeyCode::Num4),
        CapturedKey::Num5 => Some(KeyCode::Num5),
        CapturedKey::Num6 => Some(KeyCode::Num6),
        CapturedKey::Num7 => Some(KeyCode::Num7),
        CapturedKey::Num8 => Some(KeyCode::Num8),
        CapturedKey::Num9 => Some(KeyCode::Num9),
        CapturedKey::Alt => Some(KeyCode::Alt),
        CapturedKey::AltGr => Some(KeyCode::AltGr),
        CapturedKey::ControlLeft => Some(KeyCode::ControlLeft),
        CapturedKey::ControlRight => Some(KeyCode::ControlRight),
        CapturedKey::ShiftLeft => Some(KeyCode::ShiftLeft),
        CapturedKey::ShiftRight => Some(KeyCode::ShiftRight),
        CapturedKey::MetaLeft => Some(KeyCode::MetaLeft),
        CapturedKey::MetaRight => Some(KeyCode::MetaRight),
        CapturedKey::UpArrow => Some(KeyCode::UpArrow),
        CapturedKey::DownArrow => Some(KeyCode::DownArrow),
        CapturedKey::LeftArrow => Some(KeyCode::LeftArrow),
        CapturedKey::RightArrow => Some(KeyCode::RightArrow),
        CapturedKey::PageUp => Some(KeyCode::PageUp),
        CapturedKey::PageDown => Some(KeyCode::PageDown),
        CapturedKey::Home => Some(KeyCode::Home),
        CapturedKey::End => Some(KeyCode::End),
        CapturedKey::Insert => Some(KeyCode::Insert),
        CapturedKey::Delete => Some(KeyCode::Delete),
        CapturedKey::Backspace => Some(KeyCode::Backspace),
        CapturedKey::Space => Some(KeyCode::Space),
        CapturedKey::Tab => Some(KeyCode::Tab),
        CapturedKey::Return => Some(KeyCode::Return),
        CapturedKey::Escape => Some(KeyCode::Escape),
        CapturedKey::CapsLock => Some(KeyCode::CapsLock),
        CapturedKey::F1 => Some(KeyCode::F1),
        CapturedKey::F2 => Some(KeyCode::F2),
        CapturedKey::F3 => Some(KeyCode::F3),
        CapturedKey::F4 => Some(KeyCode::F4),
        CapturedKey::F5 => Some(KeyCode::F5),
        CapturedKey::F6 => Some(KeyCode::F6),
        CapturedKey::F7 => Some(KeyCode::F7),
        CapturedKey::F8 => Some(KeyCode::F8),
        CapturedKey::F9 => Some(KeyCode::F9),
        CapturedKey::F10 => Some(KeyCode::F10),
        CapturedKey::F11 => Some(KeyCode::F11),
        CapturedKey::F12 => Some(KeyCode::F12),
        CapturedKey::Minus => Some(KeyCode::Minus),
        CapturedKey::Equal => Some(KeyCode::Equals),
        CapturedKey::LeftBracket => Some(KeyCode::LeftBracket),
        CapturedKey::RightBracket => Some(KeyCode::RightBracket),
        CapturedKey::BackSlash => Some(KeyCode::Backslash),
        CapturedKey::SemiColon => Some(KeyCode::Semicolon),
        CapturedKey::Quote => Some(KeyCode::Quote),
        CapturedKey::Comma => Some(KeyCode::Comma),
        CapturedKey::Dot => Some(KeyCode::Period),
        CapturedKey::Slash => Some(KeyCode::Slash),
        CapturedKey::BackQuote => Some(KeyCode::Backtick),
        CapturedKey::IntlBackslash => Some(KeyCode::Backslash),
        CapturedKey::Kp0 => Some(KeyCode::Numpad0),
        CapturedKey::Kp1 => Some(KeyCode::Numpad1),
        CapturedKey::Kp2 => Some(KeyCode::Numpad2),
        CapturedKey::Kp3 => Some(KeyCode::Numpad3),
        CapturedKey::Kp4 => Some(KeyCode::Numpad4),
        CapturedKey::Kp5 => Some(KeyCode::Numpad5),
        CapturedKey::Kp6 => Some(KeyCode::Numpad6),
        CapturedKey::Kp7 => Some(KeyCode::Numpad7),
        CapturedKey::Kp8 => Some(KeyCode::Numpad8),
        CapturedKey::Kp9 => Some(KeyCode::Numpad9),
        CapturedKey::KpPlus => Some(KeyCode::NumpadAdd),
        CapturedKey::KpMinus => Some(KeyCode::NumpadSubtract),
        CapturedKey::KpMultiply => Some(KeyCode::NumpadMultiply),
        CapturedKey::KpDivide => Some(KeyCode::NumpadDivide),
        CapturedKey::KpReturn => Some(KeyCode::NumpadEnter),
        CapturedKey::KpDelete => Some(KeyCode::NumpadDecimal),
        CapturedKey::PrintScreen => Some(KeyCode::PrintScreen),
        CapturedKey::ScrollLock => Some(KeyCode::ScrollLock),
        CapturedKey::Pause => Some(KeyCode::Pause),
        CapturedKey::NumLock => Some(KeyCode::Other(69)),
        CapturedKey::Function => Some(KeyCode::Other(0x74)),
        CapturedKey::Unknown(_) => None,
    }
}

/// A mouse button as the global input hook reports it.
#[derive(Clone, Copy, Debug, PartialEq, Eq, Structural)]
pub enum CapturedButton {
    Left,
    Right,
    Middle,
    Unknown(u8),
}

/// The protocol button a hooked button is forwarded as: an unknown button is
/// forwarded as the left one.
pub open spec fn button_of_captured(button: CapturedButton) -> MouseButton {
    match button {
        CapturedButton::Left => MouseButton::Left,
        CapturedButton::Right => MouseButton::Right,
        CapturedButton::Middle => MouseButton::Middle,
        CapturedButton::Unknown(_) => MouseButton::Left,
    }
}

/// Maps a hooked button to the protocol button it is forwarded as.
pub fn rdev_button_to_mousebutton(button: &CapturedButton) -> (r: MouseButton)
    ensures
        r == button_of_captured(*button),
{
    match button {
        CapturedButton::Left => MouseButton::Left,
        CapturedButton::Right => MouseButton::Right,
        CapturedButton::Middle => MouseButton::Middle,
        CapturedButton::Unknown(_) => MouseButton::Left,
    }
}

/// An event the global input hook reports. The pointer position of a move
/// stays with the caller, who says whether it is at the right or left edge;
/// wheel deltas are in whole steps.
#[derive(Clone, Copy, Debug, PartialEq, Eq, Structural)]
pub enum GrabEvent {
    MouseMove,
    KeyPress(CapturedKey),
    KeyRelease(CapturedKey),
    ButtonPress(CapturedButton),
    ButtonRelease(CapturedButton),
    Wheel(i32, i32),
}

/// What the hook does with an event.
#[derive(Clone, Copy, Debug, PartialEq, Eq, Structural)]
pub enum GrabAction {
    /// Let the event through to the local machine.
    PassThrough,
    /// Keep the event from the local machine and send nothing.
    Swallow,
    /// Keep the event from the local machine and send the pointer position
    /// to the peer.
    ForwardPointer,
    /// Keep the event from the local machine and send this action.
    Forward(InputAction),
}

/// The flags after a hooked event and what the hook does with it. While
/// capture is stopped everything passes through. A move to the right edge
/// switches to remote mode, a move to the left edge while remote switches
/// back, both without sending anything; any other move while remote sends
/// the pointer position. While remote, keys, buttons and the wheel are kept
/// from the local machine and sent (a key with no protocol name is only
/// kept); while local everything passes through.
pub open spec fn spec_grab(
    s: CaptureState,
    event: GrabEvent,
    at_right: bool,
    at_left: bool,
) -> (CaptureState, GrabAction) {
    if s.stopped {
        (s, GrabAction::PassThrough)
    } else {
        match event {
            GrabEvent::MouseMove => if !s.is_remote && at_right {
                (CaptureState { is_remote: true, ..s }, GrabAction::Swallow)
            } else if s.is_remote && at_left {
                (CaptureState { is_remote: false, ..s }, GrabAction::Swallow)
            } else if s.is_remote {
                (s, GrabAction::ForwardPointer)
            } else {
                (s, GrabAction::PassThrough)
            },
            _ => if !s.is_remote {
                (s, GrabAction::PassThrough)
            } else {
                (s, match event {
                    GrabEvent::KeyPress(k) => match keycode_of_captured(k) {
                        Some(kc) => GrabAction::Forward(InputAction::KeyDown(kc)),
                        None => GrabAction::Swallow,
                    },
                    GrabEvent::KeyRelease(k) => match keycode_of_captured(k) {
                        Some(kc) => GrabAction::Forward(InputAction::KeyUp(kc)),
                        None => GrabAction::Swallow,
                    },
                    GrabEvent::ButtonPress(b) => GrabAction::Forward(
                        InputAction::MouseButtonDown(button_of_captured(b)),
                    ),
                    GrabEvent::ButtonRelease(b) => GrabAction::Forward(
                        InputAction::MouseButtonUp(button_of_captured(b)),
                    ),
                    GrabEvent::Wheel(dx, dy) => GrabAction::Forward(InputAction::MouseScroll(dx, dy)),
                    GrabEvent::MouseMove => GrabAction::PassThrough,
                })
            },
        }
    }
}

/// Decides what the hook does with one event and updates the flags.
pub fn grab_decision(state: &mut CaptureState, event: &GrabEvent, at_right: bool, at_left: bool) -> (action: GrabAction)
    ensures
        (*final(state), action) == spec_grab(*old(state), *event, at_right, at_left),
{
    if state.stopped {
        return GrabAction::PassThrough;
    }
    match event {
        GrabEvent::MouseMove => {
            if !state.is_remote && at_right {
                state.is_remote = true;
                GrabAction::Swallow
            } else if state.is_remote && at_left {
                state.is_remote = false;
                GrabAction::Swallow
            } else if state.is_remote {
                GrabAction::ForwardPointer
            } else {
                GrabAction::PassThrough
            }
        },
        _ => {
            if !state.is_remote {
                return GrabAction::PassThrough;
            }
            match event {
                GrabEvent::KeyPress(k) => match rdev_key_to_keycode(k) {
                    Some(kc) => GrabAction::Forward(InputAction::KeyDown(kc)),
                    None => GrabAction::Swallow,
                },
                GrabEvent::KeyRelease(k) => match rdev_key_to_keycode(k) {
                    Some(kc) => GrabAction::Forward(InputAction::KeyUp(kc)),
                    None => GrabAction::Swallow,
                },
                GrabEvent::ButtonPress(b) => GrabAction::Forward(
                    InputAction::MouseButtonDown(rdev_button_to_mousebutton(b)),
                ),
                GrabEvent::ButtonRelease(b) => GrabAction::Forward(
                    InputAction::MouseButtonUp(rdev_button_to_mousebutton(b)),
                ),
                GrabEvent::Wheel(dx, dy) => GrabAction::Forward(InputAction::MouseScroll(*dx, *dy)),
                GrabEvent::MouseMove => GrabAction::PassThrough,
            }
        },
    }
}

/// Law: the hook sends nothing while input is local or capture is stopped,
/// keeps nothing from the local machine while capture is stopped, and only a
/// pointer move changes the mode; the stop flag is never changed.
pub proof fn lemma_grab_sends_only_when_remote(
    s: CaptureState,
    event: GrabEvent,
    at_right: bool,
    at_left: bool,
)
    ensures
        ({
            let (after, action) = spec_grab(s, event, at_right, at_left);
            &&& (action is Forward || action is ForwardPointer) ==> !s.stopped && s.is_remote
                && after.is_remote
            &&& s.stopped ==> action == GrabAction::PassThrough && after == s
            &&& event != GrabEvent::MouseMove ==> after == s
            &&& after.stopped == s.stopped
        }),
{
}

} // verus!
