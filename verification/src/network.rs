//! Protocol vocabulary shared by both peers: edges, key and button codes,
//! screen geometry, the kinds of protocol messages and the timing constants.

use vstd::prelude::*;

verus! {

/// TCP port of the encrypted peer connection.
pub const DEFAULT_PORT: u16 = 4444;

/// Port reserved for file transfers.
pub const FILE_TRANSFER_PORT: u16 = 4445;

/// UDP port of the discovery broadcasts.
pub const DISCOVERY_PORT: u16 = 4446;

/// Magic prefix of a discovery packet.
pub const DISCOVERY_MAGIC: [u8; 4] = [0x46, 0x4d, 0x44, 0x53];

/// Seconds a connection attempt or an authentication reply may take.
pub const CONNECTION_TIMEOUT_SECS: u64 = 10;

/// Seconds between keep-alive messages.
pub const KEEPALIVE_INTERVAL_SECS: u64 = 2;

/// Seconds of silence from the peer after which the connection is dropped.
pub const KEEPALIVE_TIMEOUT_SECS: u64 = KEEPALIVE_INTERVAL_SECS * 3;

/// A side of a screen.
#[derive(Clone, Copy, Debug, PartialEq, Eq, Structural)]
pub enum Edge {
    Top,
    Right,
    Bottom,
    Left,
}

/// A keyboard key, independent of the platform's own key codes.
#[derive(Clone, Copy, Debug, PartialEq, Eq, Structural)]
pub enum KeyCode {
    A, B, C, D, E, F, G, H, I, J, K, L, M, N, O, P, Q, R, S, T, U, V, W, X, Y, Z,
    Num0, Num1, Num2, Num3, Num4, Num5, Num6, Num7, Num8, Num9,
    Alt, AltGr, ControlLeft, ControlRight, ShiftLeft, ShiftRight, MetaLeft, MetaRight,
    Super, Option,
    UpArrow, DownArrow, LeftArrow, RightArrow, PageUp, PageDown, Home, End,
    Insert, Delete, Backspace, Space, Tab, Return, Escape, CapsLock,
    F1, F2, F3, F4, F5, F6, F7, F8, F9, F10, F11, F12,
    F13, F14, F15, F16, F17, F18, F19, F20, F21, F22, F23, F24,
    Minus, Equals, LeftBracket, RightBracket, Backslash, Semicolon, Quote,
    Comma, Period, Slash, Backtick,
    Numpad0, Numpad1, Numpad2, Numpad3, Numpad4, Numpad5, Numpad6, Numpad7, Numpad8, Numpad9,
    NumpadAdd, NumpadSubtract, NumpadMultiply, NumpadDivide, NumpadEnter, NumpadDecimal,
    PrintScreen, ScrollLock, Pause, Menu,
    MediaNext, MediaPrev, MediaPlayPause, MediaStop, VolumeUp, VolumeDown, VolumeMute,
    Unicode(char),
    Other(u32),
}

/// A mouse button.
#[derive(Clone, Copy, Debug, PartialEq, Eq, Structural)]
pub enum MouseButton {
    Left,
    Right,
    Middle,
    X1,
    X2,
}

/// One display of a machine. The geometry is carried unchanged as the IEEE 754
/// bit patterns of the coordinates in pixels: nothing here computes with it.
#[derive(Clone, Copy, Debug, PartialEq, Eq, Structural)]
pub struct ScreenInfo {
    pub x_bits: u64,
    pub y_bits: u64,
    pub width_bits: u64,
    pub height_bits: u64,
    pub primary: bool,
}

/// The kind of a protocol message, without its payload.
#[derive(Clone, Copy, Debug, PartialEq, Eq, Structural)]
pub enum EventKind {
    MouseMoved,
    MouseMoveRelative,
    MouseButtonDown,
    MouseButtonUp,
    MouseScroll,
    KeyDown,
    KeyUp,
    ClipboardText,
    KeepAlive,
    AuthChallenge,
    AuthOk,
    AuthFail,
    Hello,
    RemoteEnter,
    RemoteLeave,
    CursorWarp,
    LayoutUpdate,
    KeyStateSnapshot,
    FileOffer,
    FileAccept,
    FileChunk,
    FileComplete,
    FileReject,
}

/// Messages that drive the pointer or the keyboard of the receiving machine.
pub open spec fn spec_is_input_event(kind: EventKind) -> bool {
    match kind {
        EventKind::MouseMoved | EventKind::MouseMoveRelative | EventKind::MouseButtonDown
        | EventKind::MouseButtonUp | EventKind::MouseScroll | EventKind::KeyDown
        | EventKind::KeyUp | EventKind::CursorWarp | EventKind::RemoteEnter
        | EventKind::RemoteLeave | EventKind::KeyStateSnapshot => true,
        _ => false,
    }
}

/// Messages of the file-transfer exchange.
pub open spec fn spec_is_file_event(kind: EventKind) -> bool {
    match kind {
        EventKind::FileOffer | EventKind::FileAccept | EventKind::FileChunk
        | EventKind::FileComplete | EventKind::FileReject => true,
        _ => false,
    }
}

/// Whether a message of this kind drives the pointer or the keyboard.
pub fn is_input_event(kind: EventKind) -> (r: bool)
    ensures
        r == spec_is_input_event(kind),
{
    match kind {
        EventKind::MouseMoved | EventKind::MouseMoveRelative | EventKind::MouseButtonDown
        | EventKind::MouseButtonUp | EventKind::MouseScroll | EventKind::KeyDown
        | EventKind::KeyUp | EventKind::CursorWarp | EventKind::RemoteEnter
        | EventKind::RemoteLeave | EventKind::KeyStateSnapshot => true,
        _ => false,
    }
}

/// Whether a message of this kind belongs to a file transfer.
pub fn is_file_event(kind: EventKind) -> (r: bool)
    ensures
        r == spec_is_file_event(kind),
{
    match kind {
        EventKind::FileOffer | EventKind::FileAccept | EventKind::FileChunk
        | EventKind::FileComplete | EventKind::FileReject => true,
        _ => false,
    }
}

/// A server seen on the discovery port.
#[derive(Clone, Debug)]
pub struct DiscoveredServer {
    pub ip: String,
    pub hostname: String,
    pub port: u16,
    pub machine_id: u128,
    pub screens: Vec<ScreenInfo>,
    pub protocol_version: u32,
}

/// Whether a discovery packet carries this protocol's magic prefix.
pub fn is_discovery_magic(magic: &[u8; 4]) -> (r: bool)
    ensures
        r == (magic@ == DISCOVERY_MAGIC@),
{
    let ok = magic[0] == 0x46 && magic[1] == 0x4d && magic[2] == 0x44 && magic[3] == 0x53;
    assert(ok ==> magic@ =~= DISCOVERY_MAGIC@);
    ok
}

/// What a connection's reading side does with a message it received.
#[derive(Clone, Copy, Debug, PartialEq, Eq, Structural)]
pub enum ReadAction {
    /// Put the text on the local clipboard.
    SetClipboard,
    /// Hand the message to the file-transfer state.
    HandleFile,
    /// Pass the message on to the local consumer (simulation or router).
    Forward,
    /// Nothing beyond counting it as a sign of life.
    Ignore,
}

/// The sharing side (it controls the other machine) only takes clipboard
/// text from its peer.
pub fn share_read_action(kind: EventKind) -> (a: ReadAction)
    ensures
        a == if kind == EventKind::ClipboardText {
            ReadAction::SetClipboard
        } else {
            ReadAction::Ignore
        },
{
    match kind {
        EventKind::ClipboardText => ReadAction::SetClipboard,
        _ => ReadAction::Ignore,
    }
}

/// The receiving side takes clipboard text, file transfers and input events;
/// everything else only shows the peer is alive.
pub fn receive_read_action(kind: EventKind) -> (a: ReadAction)
    ensures
        a == if kind == EventKind::ClipboardText {
            ReadAction::SetClipboard
        } else if kind == EventKind::KeepAlive {
            ReadAction::Ignore
        } else if spec_is_file_event(kind) {
            ReadAction::HandleFile
        } else if spec_is_input_event(kind) {
            ReadAction::Forward
        } else {
            ReadAction::Ignore
        },
{
    match kind {
        EventKind::ClipboardText => ReadAction::SetClipboard,
        EventKind::KeepAlive => ReadAction::Ignore,
        _ => {
            if is_file_event(kind) {
                ReadAction::HandleFile
            } else if is_input_event(kind) {
                ReadAction::Forward
            } else {
                ReadAction::Ignore
            }
        },
    }
}

/// A workspace peer connection takes clipboard text and file transfers itself
/// and passes every other message except keep-alives on.
pub fn peer_read_action(kind: EventKind) -> (a: ReadAction)
    ensures
        a == if kind == EventKind::ClipboardText {
            ReadAction::SetClipboard
        } else if kind == EventKind::KeepAlive {
            ReadAction::Ignore
        } else if spec_is_file_event(kind) {
            ReadAction::HandleFile
        } else {
            ReadAction::Forward
        },
{
    match kind {
        EventKind::ClipboardText => ReadAction::SetClipboard,
        EventKind::KeepAlive => ReadAction::Ignore,
        _ => {
            if is_file_event(kind) {
                ReadAction::HandleFile
            } else {
                ReadAction::Forward
            }
        },
    }
}

/// Nanoseconds in a second.
pub const NANOS_PER_SEC: u128 = 1_000_000_000;

/// Whether a peer silent for `elapsed_nanos` nanoseconds is considered gone:
/// strictly longer than `KEEPALIVE_TIMEOUT_SECS`.
pub fn keepalive_expired(elapsed_nanos: u128) -> (r: bool)
    ensures
        r == (elapsed_nanos > KEEPALIVE_TIMEOUT_SECS * NANOS_PER_SEC),
{
    elapsed_nanos > 6_000_000_000u128
}

} // verus!
