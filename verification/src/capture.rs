//! Input-capture decisions: edge detection from relative mouse motion and the
//! shared remote/stop flags of a capture session.

use vstd::prelude::*;
use crate::network::{KeyCode, MouseButton};

verus! {

/// Detects that the pointer is being pushed against the left or right screen
/// edge from a stream of relative X motions: `threshold` consecutive motions in
/// one direction arm that edge, and an armed edge does not fire again until the
/// other edge fires or the detector is reset.
pub struct EdgeDetector {
    pub right_streak: u32,
    pub left_streak: u32,
    pub threshold: u32,
    pub was_right_edge: bool,
    pub was_left_edge: bool,
}

impl EdgeDetector {
    /// The detector state after feeding one relative X motion, and what that
    /// motion reports: `Some(true)` for the right edge, `Some(false)` for the left.
    pub open spec fn step(self, value: i32) -> (EdgeDetector, Option<bool>) {
        if value > 0 {
            let right = (self.right_streak + 1) as u32;
            let d = EdgeDetector { right_streak: right, left_streak: 0, ..self };
            if right >= self.threshold && !self.was_right_edge {
                (EdgeDetector { was_right_edge: true, was_left_edge: false, ..d }, Some(true))
            } else {
                (d, None)
            }
        } else if value < 0 {
            let left = (self.left_streak + 1) as u32;
            let d = EdgeDetector { left_streak: left, right_streak: 0, ..self };
            if left >= self.threshold && !self.was_left_edge {
                (EdgeDetector { was_left_edge: true, was_right_edge: false, ..d }, Some(false))
            } else {
                (d, None)
            }
        } else {
            (self, None)
        }
    }

    /// Whether `step(value)` stays within the counters' range.
    pub open spec fn can_step(self, value: i32) -> bool {
        &&& value > 0 ==> self.right_streak < u32::MAX
        &&& value < 0 ==> self.left_streak < u32::MAX
    }

    /// A detector with no streak and no armed edge.
    pub open spec fn is_fresh(self, threshold: u32) -> bool {
        &&& self.right_streak == 0
        &&& self.left_streak == 0
        &&& self.threshold == threshold
        &&& !self.was_right_edge
        &&& !self.was_left_edge
    }

    /// The state after feeding `values` in order, and what each motion reported.
    pub open spec fn run(self, values: Seq<i32>) -> (EdgeDetector, Seq<Option<bool>>)
        decreases values.len(),
    {
        if values.len() == 0 {
            (self, Seq::empty())
        } else {
            let (d1, fired) = self.step(values[0]);
            let (d2, rest) = d1.run(values.drop_first());
            (d2, seq![fired] + rest)
        }
    }

    /// The edge that fired last and is still armed, if any.
    pub open spec fn armed(self) -> Option<bool> {
        if self.was_right_edge {
            Some(true)
        } else if self.was_left_edge {
            Some(false)
        } else {
            None
        }
    }

    /// At most one edge is armed at a time.
    pub open spec fn well_formed(self) -> bool {
        !(self.was_right_edge && self.was_left_edge)
    }

    /// At most one direction has a running streak.
    pub open spec fn streaks_exclusive(self) -> bool {
        !(self.right_streak > 0 && self.left_streak > 0)
    }

    pub fn new(threshold: u32) -> (d: Self)
        ensures
            d.is_fresh(threshold),
    {
        EdgeDetector {
            right_streak: 0,
            left_streak: 0,
            threshold,
            was_right_edge: false,
            was_left_edge: false,
        }
    }

    /// Feeds one relative X motion (positive: rightward, negative: leftward,
    /// zero: no motion). Returns `Some(true)` when the right edge fires,
    /// `Some(false)` when the left edge fires, `None` otherwise.
    pub fn feed_rel_x(&mut self, value: i32) -> (fired: Option<bool>)
        requires
            old(self).can_step(value),
        ensures
            (*final(self), fired) == old(self).step(value),
            old(self).well_formed() && old(self).streaks_exclusive() ==> final(self).well_formed()
                && final(self).streaks_exclusive(),
    {
        if value > 0 {
            self.right_streak = self.right_streak + 1;
            self.left_streak = 0;
            if self.right_streak >= self.threshold && !self.was_right_edge {
                self.was_right_edge = true;
                self.was_left_edge = false;
                return Some(true);
            }
        } else if value < 0 {
            self.left_streak = self.left_streak + 1;
            self.right_streak = 0;
            if self.left_streak >= self.threshold && !self.was_left_edge {
                self.was_left_edge = true;
                self.was_right_edge = false;
                return Some(false);
            }
        }
        None
    }

    /// Clears both streaks and disarms both edges; the threshold is kept.
    pub fn reset(&mut self)
        ensures
            final(self).is_fresh(old(self).threshold),
    {
        self.right_streak = 0;
        self.left_streak = 0;
        self.was_right_edge = false;
        self.was_left_edge = false;
    }
}

/// Linux input-event code of the Enter key.
pub const KEY_ENTER: u16 = 28;

/// Linux input-event code of the keypad Enter key.
pub const KEY_KPENTER: u16 = 96;

/// Linux input-event codes of the mouse buttons.
pub const BTN_LEFT: u16 = 0x110;
pub const BTN_RIGHT: u16 = 0x111;
pub const BTN_MIDDLE: u16 = 0x112;
pub const BTN_SIDE: u16 = 0x113;
pub const BTN_EXTRA: u16 = 0x114;

/// The key reported by a Linux input-event key code, if it is one this
/// protocol forwards.
pub open spec fn keycode_of_evdev(code: u16) -> Option<KeyCode> {
    match code {
        30 => Some(KeyCode::A),  // KEY_A
        48 => Some(KeyCode::B),  // KEY_B
        46 => Some(KeyCode::C),  // KEY_C
        32 => Some(KeyCode::D),  // KEY_D
        18 => Some(KeyCode::E),  // KEY_E
        33 => Some(KeyCode::F),  // KEY_F
        34 => Some(KeyCode::G),  // KEY_G
        35 => Some(KeyCode::H),  // KEY_H
        23 => Some(KeyCode::I),  // KEY_I
        36 => Some(KeyCode::J),  // KEY_J
        37 => Some(KeyCode::K),  // KEY_K
        38 => Some(KeyCode::L),  // KEY_L
        50 => Some(KeyCode::M),  // KEY_M
        49 => Some(KeyCode::N),  // KEY_N
        24 => Some(KeyCode::O),  // KEY_O
        25 => Some(KeyCode::P),  // KEY_P
        16 => Some(KeyCode::Q),  // KEY_Q
        19 => Some(KeyCode::R),  // KEY_R
        31 => Some(KeyCode::S),  // KEY_S
        20 => Some(KeyCode::T),  // KEY_T
        22 => Some(KeyCode::U),  // KEY_U
        47 => Some(KeyCode::V),  // KEY_V
        17 => Some(KeyCode::W),  // KEY_W
        45 => Some(KeyCode::X),  // KEY_X
        21 => Some(KeyCode::Y),  // KEY_Y
        44 => Some(KeyCode::Z),  // KEY_Z
        2 => Some(KeyCode::Num1),  // KEY_1
        3 => Some(KeyCode::Num2),  // KEY_2
        4 => Some(KeyCode::Num3),  // KEY_3
        5 => Some(KeyCode::Num4),  // KEY_4
        6 => Some(KeyCode::Num5),  // KEY_5
        7 => Some(KeyCode::Num6),  // KEY_6
        8 => Some(KeyCode::Num7),  // KEY_7
        9 => Some(KeyCode::Num8),  // KEY_8
        10 => Some(KeyCode::Num9),  // KEY_9
        11 => Some(KeyCode::Num0),  // KEY_0
        56 => Some(KeyCode::Alt),  // KEY_LEFTALT
        100 => Some(KeyCode::AltGr),  // KEY_RIGHTALT
        29 => Some(KeyCode::ControlLeft),  // KEY_LEFTCTRL
        97 => Some(KeyCode::ControlRight),  // KEY_RIGHTCTRL
        42 => Some(KeyCode::ShiftLeft),  // KEY_LEFTSHIFT
        54 => Some(KeyCode::ShiftRight),  // KEY_RIGHTSHIFT
        125 => Some(KeyCode::MetaLeft),  // KEY_LEFTMETA
        126 => Some(KeyCode::MetaRight),  // KEY_RIGHTMETA
        103 => Some(KeyCode::UpArrow),  // KEY_UP
        108 => Some(KeyCode::DownArrow),  // KEY_DOWN
        105 => Some(KeyCode::LeftArrow),  // KEY_LEFT
        106 => Some(KeyCode::RightArrow),  // KEY_RIGHT
        104 => Some(KeyCode::PageUp),  // KEY_PAGEUP
        109 => Some(KeyCode::PageDown),  // KEY_PAGEDOWN
        102 => Some(KeyCode::Home),  // KEY_HOME
        107 => Some(KeyCode::End),  // KEY_END
        110 => Some(KeyCode::Insert),  // KEY_INSERT
        111 => Some(KeyCode::Delete),  // KEY_DELETE
        14 => Some(KeyCode::Backspace),  // KEY_BACKSPACE
        57 => Some(KeyCode::Space),  // KEY_SPACE
        15 => Some(KeyCode::Tab),  // KEY_TAB
        28 => Some(KeyCode::Return),  // KEY_ENTER
        1 => Some(KeyCode::Escape),  // KEY_ESC
        58 => Some(KeyCode::CapsLock),  // KEY_CAPSLOCK
        59 => Some(KeyCode::F1),  // KEY_F1
        60 => Some(KeyCode::F2),  // KEY_F2
        61 => Some(KeyCode::F3),  // KEY_F3
        62 => Some(KeyCode::F4),  // KEY_F4
        63 => Some(KeyCode::F5),  // KEY_F5
        64 => Some(KeyCode::F6),  // KEY_F6
        65 => Some(KeyCode::F7),  // KEY_F7
        66 => Some(KeyCode::F8),  // KEY_F8
        67 => Some(KeyCode::F9),  // KEY_F9
        68 => Some(KeyCode::F10),  // KEY_F10
        87 => Some(KeyCode::F11),  // KEY_F11
        88 => Some(KeyCode::F12),  // KEY_F12
        12 => Some(KeyCode::Minus),  // KEY_MINUS
        13 => Some(KeyCode::Equals),  // KEY_EQUAL
        26 => Some(KeyCode::LeftBracket),  // KEY_LEFTBRACE
        27 => Some(KeyCode::RightBracket),  // KEY_RIGHTBRACE
        43 => Some(KeyCode::Backslash),  // KEY_BACKSLASH
        39 => Some(KeyCode::Semicolon),  // KEY_SEMICOLON
        40 => Some(KeyCode::Quote),  // KEY_APOSTROPHE
        51 => Some(KeyCode::Comma),  // KEY_COMMA
        52 => Some(KeyCode::Period),  // KEY_DOT
        53 => Some(KeyCode::Slash),  // KEY_SLASH
        41 => Some(KeyCode::Backtick),  // KEY_GRAVE
        82 => Some(KeyCode::Numpad0),  // KEY_KP0
        79 => Some(KeyCode::Numpad1),  // KEY_KP1
        80 => Some(KeyCode::Numpad2),  // KEY_KP2
        81 => Some(KeyCode::Numpad3),  // KEY_KP3
        75 => Some(KeyCode::Numpad4),  // KEY_KP4
        76 => Some(KeyCode::Numpad5),  // KEY_KP5
        77 => Some(KeyCode::Numpad6),  // KEY_KP6
        71 => Some(KeyCode::Numpad7),  // KEY_KP7
        72 => Some(KeyCode::Numpad8),  // KEY_KP8
        73 => Some(KeyCode::Numpad9),  // KEY_KP9
        78 => Some(KeyCode::NumpadAdd),  // KEY_KPPLUS
        74 => Some(KeyCode::NumpadSubtract),  // KEY_KPMINUS
        55 => Some(KeyCode::NumpadMultiply),  // KEY_KPASTERISK
        98 => Some(KeyCode::NumpadDivide),  // KEY_KPSLASH
        96 => Some(KeyCode::NumpadEnter),  // KEY_KPENTER
        83 => Some(KeyCode::NumpadDecimal),  // KEY_KPDOT
        99 => Some(KeyCode::PrintScreen),  // KEY_SYSRQ
        70 => Some(KeyCode::ScrollLock),  // KEY_SCROLLLOCK
        119 => Some(KeyCode::Pause),  // KEY_PAUSE
        127 => Some(KeyCode::Menu),  // KEY_COMPOSE
        _ => None,
    }
}

/// The Linux key code that plays a key, before character keys are considered.
pub open spec fn base_evdev_code(key: KeyCode) -> Option<u16> {
    match key {
        KeyCode::A => Some(30),  // KEY_A
        KeyCode::B => Some(48),  // KEY_B
        KeyCode::C => Some(46),  // KEY_C
        KeyCode::D => Some(32),  // KEY_D
        KeyCode::E => Some(18),  // KEY_E
        KeyCode::F => Some(33),  // KEY_F
        KeyCode::G => Some(34),  // KEY_G
        KeyCode::H => Some(35),  // KEY_H
        KeyCode::I => Some(23),  // KEY_I
        KeyCode::J => Some(36),  // KEY_J
        KeyCode::K => Some(37),  // KEY_K
        KeyCode::L => Some(38),  // KEY_L
        KeyCode::M => Some(50),  // KEY_M
        KeyCode::N => Some(49),  // KEY_N
        KeyCode::O => Some(24),  // KEY_O
        KeyCode::P => Some(25),  // KEY_P
        KeyCode::Q => Some(16),  // KEY_Q
        KeyCode::R => Some(19),  // KEY_R
        KeyCode::S => Some(31),  // KEY_S
        KeyCode::T => Some(20),  // KEY_T
        KeyCode::U => Some(22),  // KEY_U
        KeyCode::V => Some(47),  // KEY_V
        KeyCode::W => Some(17),  // KEY_W
        KeyCode::X => Some(45),  // KEY_X
        KeyCode::Y => Some(21),  // KEY_Y
        KeyCode::Z => Some(44),  // KEY_Z
        KeyCode::Num0 => Some(11),  // KEY_0
        KeyCode::Num1 => Some(2),  // KEY_1
        KeyCode::Num2 => Some(3),  // KEY_2
        KeyCode::Num3 => Some(4),  // KEY_3
        KeyCode::Num4 => Some(5),  // KEY_4
        KeyCode::Num5 => Some(6),  // KEY_5
        KeyCode::Num6 => Some(7),  // KEY_6
        KeyCode::Num7 => Some(8),  // KEY_7
        KeyCode::Num8 => Some(9),  // KEY_8
        KeyCode::Num9 => Some(10),  // KEY_9
        KeyCode::Alt => Some(56),  // KEY_LEFTALT
        KeyCode::AltGr => Some(100),  // KEY_RIGHTALT
        KeyCode::ControlLeft => Some(29),  // KEY_LEFTCTRL
        KeyCode::ControlRight => Some(97),  // KEY_RIGHTCTRL
        KeyCode::ShiftLeft => Some(42),  // KEY_LEFTSHIFT
        KeyCode::ShiftRight => Some(54),  // KEY_RIGHTSHIFT
        KeyCode::MetaLeft => Some(125),  // KEY_LEFTMETA
        KeyCode::Super => Some(125),  // KEY_LEFTMETA
        KeyCode::MetaRight => Some(126),  // KEY_RIGHTMETA
        KeyCode::UpArrow => Some(103),  // KEY_UP
        KeyCode::DownArrow => Some(108),  // KEY_DOWN
        KeyCode::LeftArrow => Some(105),  // KEY_LEFT
        KeyCode::RightArrow => Some(106),  // KEY_RIGHT
        KeyCode::PageUp => Some(104),  // KEY_PAGEUP
        KeyCode::PageDown => Some(109),  // KEY_PAGEDOWN
        KeyCode::Home => Some(102),  // KEY_HOME
        KeyCode::End => Some(107),  // KEY_END
        KeyCode::Insert => Some(110),  // KEY_INSERT
        KeyCode::Delete => Some(111),  // KEY_DELETE
        KeyCode::Backspace => Some(14),  // KEY_BACKSPACE
        KeyCode::Space => Some(57),  // KEY_SPACE
        KeyCode::Tab => Some(15),  // KEY_TAB
        KeyCode::Return => Some(28),  // KEY_ENTER
        KeyCode::NumpadEnter => Some(28),  // KEY_ENTER
        KeyCode::Escape => Some(1),  // KEY_ESC
        KeyCode::CapsLock => Some(58),  // KEY_CAPSLOCK
        KeyCode::F1 => Some(59),  // KEY_F1
        KeyCode::F2 => Some(60),  // KEY_F2
        KeyCode::F3 => Some(61),  // KEY_F3
        KeyCode::F4 => Some(62),  // KEY_F4
        KeyCode::F5 => Some(63),  // KEY_F5
        KeyCode::F6 => Some(64),  // KEY_F6
        KeyCode::F7 => Some(65),  // KEY_F7
        KeyCode::F8 => Some(66),  // KEY_F8
        KeyCode::F9 => Some(67),  // KEY_F9
        KeyCode::F10 => Some(68),  // KEY_F10
        KeyCode::F11 => Some(87),  // KEY_F11
        KeyCode::F12 => Some(88),  // KEY_F12
        KeyCode::Minus => Some(12),  // KEY_MINUS
        KeyCode::Equals => Some(13),  // KEY_EQUAL
        KeyCode::LeftBracket => Some(26),  // KEY_LEFTBRACE
        KeyCode::RightBracket => Some(27),  // KEY_RIGHTBRACE
        KeyCode::Backslash => Some(43),  // KEY_BACKSLASH
        KeyCode::Semicolon => Some(39),  // KEY_SEMICOLON
        KeyCode::Quote => Some(40),  // KEY_APOSTROPHE
        KeyCode::Comma => Some(51),  // KEY_COMMA
        KeyCode::Period => Some(52),  // KEY_DOT
        KeyCode::Slash => Some(53),  // KEY_SLASH
        KeyCode::Backtick => Some(41),  // KEY_GRAVE
        KeyCode::Numpad0 => Some(82),  // KEY_KP0
        KeyCode::Numpad1 => Some(79),  // KEY_KP1
        KeyCode::Numpad2 => Some(80),  // KEY_KP2
        KeyCode::Numpad3 => Some(81),  // KEY_KP3
        KeyCode::Numpad4 => Some(75),  // KEY_KP4
        KeyCode::Numpad5 => Some(76),  // KEY_KP5
        KeyCode::Numpad6 => Some(77),  // KEY_KP6
        KeyCode::Numpad7 => Some(71),  // KEY_KP7
        KeyCode::Numpad8 => Some(72),  // KEY_KP8
        KeyCode::Numpad9 => Some(73),  // KEY_KP9
        KeyCode::NumpadAdd => Some(78),  // KEY_KPPLUS
        KeyCode::NumpadSubtract => Some(74),  // KEY_KPMINUS
        KeyCode::NumpadMultiply => Some(55),  // KEY_KPASTERISK
        KeyCode::NumpadDivide => Some(98),  // KEY_KPSLASH
        KeyCode::NumpadDecimal => Some(83),  // KEY_KPDOT
        KeyCode::PrintScreen => Some(99),  // KEY_SYSRQ
        KeyCode::ScrollLock => Some(70),  // KEY_SCROLLLOCK
        KeyCode::Pause => Some(119),  // KEY_PAUSE
        KeyCode::Menu => Some(127),  // KEY_COMPOSE
        KeyCode::Option => Some(56),  // KEY_LEFTALT
        _ => None,
    }
}

/// The letter key at `i` in alphabetical order.
pub open spec fn letter_key(i: u32) -> KeyCode {
    match i {
        0 => KeyCode::A,
        1 => KeyCode::B,
        2 => KeyCode::C,
        3 => KeyCode::D,
        4 => KeyCode::E,
        5 => KeyCode::F,
        6 => KeyCode::G,
        7 => KeyCode::H,
        8 => KeyCode::I,
        9 => KeyCode::J,
        10 => KeyCode::K,
        11 => KeyCode::L,
        12 => KeyCode::M,
        13 => KeyCode::N,
        14 => KeyCode::O,
        15 => KeyCode::P,
        16 => KeyCode::Q,
        17 => KeyCode::R,
        18 => KeyCode::S,
        19 => KeyCode::T,
        20 => KeyCode::U,
        21 => KeyCode::V,
        22 => KeyCode::W,
        23 => KeyCode::X,
        24 => KeyCode::Y,
        25 => KeyCode::Z,
        _ => KeyCode::Z,
    }
}

/// The top-row digit key for digit `i`.
pub open spec fn digit_key(i: u32) -> KeyCode {
    match i {
        0 => KeyCode::Num0,
        1 => KeyCode::Num1,
        2 => KeyCode::Num2,
        3 => KeyCode::Num3,
        4 => KeyCode::Num4,
        5 => KeyCode::Num5,
        6 => KeyCode::Num6,
        7 => KeyCode::Num7,
        8 => KeyCode::Num8,
        9 => KeyCode::Num9,
        _ => KeyCode::Num9,
    }
}

/// The key that types an ASCII letter (either case) or digit.
pub open spec fn char_key(c: char) -> Option<KeyCode> {
    if 'a' <= c && c <= 'z' {
        Some(letter_key((c as u32 - 'a' as u32) as u32))
    } else if 'A' <= c && c <= 'Z' {
        Some(letter_key((c as u32 - 'A' as u32) as u32))
    } else if '0' <= c && c <= '9' {
        Some(digit_key((c as u32 - '0' as u32) as u32))
    } else {
        None
    }
}

/// The Linux key code that plays a key: a character is played by the key that
/// types it; keys with no Linux counterpart here have none.
pub open spec fn evdev_code_of(key: KeyCode) -> Option<u16> {
    match key {
        KeyCode::Unicode(c) => match char_key(c) {
            Some(k) => base_evdev_code(k),
            None => None,
        },
        _ => base_evdev_code(key),
    }
}

/// Maps a Linux input-event key code to the protocol's key, if forwarded.
pub fn evdev_key_to_keycode(code: u16) -> (key: Option<KeyCode>)
    ensures
        key == keycode_of_evdev(code),
{
    match code {
            30 => Some(KeyCode::A),  // KEY_A
            48 => Some(KeyCode::B),  // KEY_B
            46 => Some(KeyCode::C),  // KEY_C
            32 => Some(KeyCode::D),  // KEY_D
            18 => Some(KeyCode::E),  // KEY_E
            33 => Some(KeyCode::F),  // KEY_F
            34 => Some(KeyCode::G),  // KEY_G
            35 => Some(KeyCode::H),  // KEY_H
            23 => Some(KeyCode::I),  // KEY_I
            36 => Some(KeyCode::J),  // KEY_J
            37 => Some(KeyCode::K),  // KEY_K
            38 => Some(KeyCode::L),  // KEY_L
            50 => Some(KeyCode::M),  // KEY_M
            49 => Some(KeyCode::N),  // KEY_N
            24 => Some(KeyCode::O),  // KEY_O
            25 => Some(KeyCode::P),  // KEY_P
            16 => Some(KeyCode::Q),  // KEY_Q
            19 => Some(KeyCode::R),  // KEY_R
            31 => Some(KeyCode::S),  // KEY_S
            20 => Some(KeyCode::T),  // KEY_T
            22 => Some(KeyCode::U),  // KEY_U
            47 => Some(KeyCode::V),  // KEY_V
            17 => Some(KeyCode::W),  // KEY_W
            45 => Some(KeyCode::X),  // KEY_X
            21 => Some(KeyCode::Y),  // KEY_Y
            44 => Some(KeyCode::Z),  // KEY_Z
            2 => Some(KeyCode::Num1),  // KEY_1
            3 => Some(KeyCode::Num2),  // KEY_2
            4 => Some(KeyCode::Num3),  // KEY_3
            5 => Some(KeyCode::Num4),  // KEY_4
            6 => Some(KeyCode::Num5),  // KEY_5
            7 => Some(KeyCode::Num6),  // KEY_6
            8 => Some(KeyCode::Num7),  // KEY_7
            9 => Some(KeyCode::Num8),  // KEY_8
            10 => Some(KeyCode::Num9),  // KEY_9
            11 => Some(KeyCode::Num0),  // KEY_0
            56 => Some(KeyCode::Alt),  // KEY_LEFTALT
            100 => Some(KeyCode::AltGr),  // KEY_RIGHTALT
            29 => Some(KeyCode::ControlLeft),  // KEY_LEFTCTRL
            97 => Some(KeyCode::ControlRight),  // KEY_RIGHTCTRL
            42 => Some(KeyCode::ShiftLeft),  // KEY_LEFTSHIFT
            54 => Some(KeyCode::ShiftRight),  // KEY_RIGHTSHIFT
            125 => Some(KeyCode::MetaLeft),  // KEY_LEFTMETA
            126 => Some(KeyCode::MetaRight),  // KEY_RIGHTMETA
            103 => Some(KeyCode::UpArrow),  // KEY_UP
            108 => Some(KeyCode::DownArrow),  // KEY_DOWN
            105 => Some(KeyCode::LeftArrow),  // KEY_LEFT
            106 => Some(KeyCode::RightArrow),  // KEY_RIGHT
            104 => Some(KeyCode::PageUp),  // KEY_PAGEUP
            109 => Some(KeyCode::PageDown),  // KEY_PAGEDOWN
            102 => Some(KeyCode::Home),  // KEY_HOME
            107 => Some(KeyCode::End),  // KEY_END
            110 => Some(KeyCode::Insert),  // KEY_INSERT
            111 => Some(KeyCode::Delete),  // KEY_DELETE
            14 => Some(KeyCode::Backspace),  // KEY_BACKSPACE
            57 => Some(KeyCode::Space),  // KEY_SPACE
            15 => Some(KeyCode::Tab),  // KEY_TAB
            28 => Some(KeyCode::Return),  // KEY_ENTER
            1 => Some(KeyCode::Escape),  // KEY_ESC
            58 => Some(KeyCode::CapsLock),  // KEY_CAPSLOCK
            59 => Some(KeyCode::F1),  // KEY_F1
            60 => Some(KeyCode::F2),  // KEY_F2
            61 => Some(KeyCode::F3),  // KEY_F3
            62 => Some(KeyCode::F4),  // KEY_F4
            63 => Some(KeyCode::F5),  // KEY_F5
            64 => Some(KeyCode::F6),  // KEY_F6
            65 => Some(KeyCode::F7),  // KEY_F7
            66 => Some(KeyCode::F8),  // KEY_F8
            67 => Some(KeyCode::F9),  // KEY_F9
            68 => Some(KeyCode::F10),  // KEY_F10
            87 => Some(KeyCode::F11),  // KEY_F11
            88 => Some(KeyCode::F12),  // KEY_F12
            12 => Some(KeyCode::Minus),  // KEY_MINUS
            13 => Some(KeyCode::Equals),  // KEY_EQUAL
            26 => Some(KeyCode::LeftBracket),  // KEY_LEFTBRACE
            27 => Some(KeyCode::RightBracket),  // KEY_RIGHTBRACE
            43 => Some(KeyCode::Backslash),  // KEY_BACKSLASH
            39 => Some(KeyCode::Semicolon),  // KEY_SEMICOLON
            40 => Some(KeyCode::Quote),  // KEY_APOSTROPHE
            51 => Some(KeyCode::Comma),  // KEY_COMMA
            52 => Some(KeyCode::Period),  // KEY_DOT
            53 => Some(KeyCode::Slash),  // KEY_SLASH
            41 => Some(KeyCode::Backtick),  // KEY_GRAVE
            82 => Some(KeyCode::Numpad0),  // KEY_KP0
            79 => Some(KeyCode::Numpad1),  // KEY_KP1
            80 => Some(KeyCode::Numpad2),  // KEY_KP2
            81 => Some(KeyCode::Numpad3),  // KEY_KP3
            75 => Some(KeyCode::Numpad4),  // KEY_KP4
            76 => Some(KeyCode::Numpad5),  // KEY_KP5
            77 => Some(KeyCode::Numpad6),  // KEY_KP6
            71 => Some(KeyCode::Numpad7),  // KEY_KP7
            72 => Some(KeyCode::Numpad8),  // KEY_KP8
            73 => Some(KeyCode::Numpad9),  // KEY_KP9
            78 => Some(KeyCode::NumpadAdd),  // KEY_KPPLUS
            74 => Some(KeyCode::NumpadSubtract),  // KEY_KPMINUS
            55 => Some(KeyCode::NumpadMultiply),  // KEY_KPASTERISK
            98 => Some(KeyCode::NumpadDivide),  // KEY_KPSLASH
            96 => Some(KeyCode::NumpadEnter),  // KEY_KPENTER
            83 => Some(KeyCode::NumpadDecimal),  // KEY_KPDOT
            99 => Some(KeyCode::PrintScreen),  // KEY_SYSRQ
            70 => Some(KeyCode::ScrollLock),  // KEY_SCROLLLOCK
            119 => Some(KeyCode::Pause),  // KEY_PAUSE
            127 => Some(KeyCode::Menu),  // KEY_COMPOSE
        _ => None,
    }
}

fn letter_at(i: u32) -> (key: KeyCode)
    requires
        i < 26,
    ensures
        key == letter_key(i),
{
    match i {
            0 => KeyCode::A,
            1 => KeyCode::B,
            2 => KeyCode::C,
            3 => KeyCode::D,
            4 => KeyCode::E,
            5 => KeyCode::F,
            6 => KeyCode::G,
            7 => KeyCode::H,
            8 => KeyCode::I,
            9 => KeyCode::J,
            10 => KeyCode::K,
            11 => KeyCode::L,
            12 => KeyCode::M,
            13 => KeyCode::N,
            14 => KeyCode::O,
            15 => KeyCode::P,
            16 => KeyCode::Q,
            17 => KeyCode::R,
            18 => KeyCode::S,
            19 => KeyCode::T,
            20 => KeyCode::U,
            21 => KeyCode::V,
            22 => KeyCode::W,
            23 => KeyCode::X,
            24 => KeyCode::Y,
            25 => KeyCode::Z,
        _ => KeyCode::Z,
    }
}

fn digit_at(i: u32) -> (key: KeyCode)
    requires
        i < 10,
    ensures
        key == digit_key(i),
{
    match i {
            0 => KeyCode::Num0,
            1 => KeyCode::Num1,
            2 => KeyCode::Num2,
            3 => KeyCode::Num3,
            4 => KeyCode::Num4,
            5 => KeyCode::Num5,
            6 => KeyCode::Num6,
            7 => KeyCode::Num7,
            8 => KeyCode::Num8,
            9 => KeyCode::Num9,
        _ => KeyCode::Num9,
    }
}

/// The key that types an ASCII letter (either case) or digit.
pub fn key_for_char(c: char) -> (key: Option<KeyCode>)
    ensures
        key == char_key(c),
{
    if 'a' <= c && c <= 'z' {
        Some(letter_at(c as u32 - 'a' as u32))
    } else if 'A' <= c && c <= 'Z' {
        Some(letter_at(c as u32 - 'A' as u32))
    } else if '0' <= c && c <= '9' {
        Some(digit_at(c as u32 - '0' as u32))
    } else {
        None
    }
}

fn base_evdev_key(key: KeyCode) -> (code: Option<u16>)
    ensures
        code == base_evdev_code(key),
{
    match key {
            KeyCode::A => Some(30),  // KEY_A
            KeyCode::B => Some(48),  // KEY_B
            KeyCode::C => Some(46),  // KEY_C
            KeyCode::D => Some(32),  // KEY_D
            KeyCode::E => Some(18),  // KEY_E
            KeyCode::F => Some(33),  // KEY_F
            KeyCode::G => Some(34),  // KEY_G
            KeyCode::H => Some(35),  // KEY_H
            KeyCode::I => Some(23),  // KEY_I
            KeyCode::J => Some(36),  // KEY_J
            KeyCode::K => Some(37),  // KEY_K
            KeyCode::L => Some(38),  // KEY_L
            KeyCode::M => Some(50),  // KEY_M
            KeyCode::N => Some(49),  // KEY_N
            KeyCode::O => Some(24),  // KEY_O
            KeyCode::P => Some(25),  // KEY_P
            KeyCode::Q => Some(16),  // KEY_Q
            KeyCode::R => Some(19),  // KEY_R
            KeyCode::S => Some(31),  // KEY_S
            KeyCode::T => Some(20),  // KEY_T
            KeyCode::U => Some(22),  // KEY_U
            KeyCode::V => Some(47),  // KEY_V
            KeyCode::W => Some(17),  // KEY_W
            KeyCode::X => Some(45),  // KEY_X
            KeyCode::Y => Some(21),  // KEY_Y
            KeyCode::Z => Some(44),  // KEY_Z
            KeyCode::Num0 => Some(11),  // KEY_0
            KeyCode::Num1 => Some(2),  // KEY_1
            KeyCode::Num2 => Some(3),  // KEY_2
            KeyCode::Num3 => Some(4),  // KEY_3
            KeyCode::Num4 => Some(5),  // KEY_4
            KeyCode::Num5 => Some(6),  // KEY_5
            KeyCode::Num6 => Some(7),  // KEY_6
            KeyCode::Num7 => Some(8),  // KEY_7
            KeyCode::Num8 => Some(9),  // KEY_8
            KeyCode::Num9 => Some(10),  // KEY_9
            KeyCode::Alt => Some(56),  // KEY_LEFTALT
            KeyCode::AltGr => Some(100),  // KEY_RIGHTALT
            KeyCode::ControlLeft => Some(29),  // KEY_LEFTCTRL
            KeyCode::ControlRight => Some(97),  // KEY_RIGHTCTRL
            KeyCode::ShiftLeft => Some(42),  // KEY_LEFTSHIFT
            KeyCode::ShiftRight => Some(54),  // KEY_RIGHTSHIFT
            KeyCode::MetaLeft => Some(125),  // KEY_LEFTMETA
            KeyCode::Super => Some(125),  // KEY_LEFTMETA
            KeyCode::MetaRight => Some(126),  // KEY_RIGHTMETA
            KeyCode::UpArrow => Some(103),  // KEY_UP
            KeyCode::DownArrow => Some(108),  // KEY_DOWN
            KeyCode::LeftArrow => Some(105),  // KEY_LEFT
            KeyCode::RightArrow => Some(106),  // KEY_RIGHT
            KeyCode::PageUp => Some(104),  // KEY_PAGEUP
            KeyCode::PageDown => Some(109),  // KEY_PAGEDOWN
            KeyCode::Home => Some(102),  // KEY_HOME
            KeyCode::End => Some(107),  // KEY_END
            KeyCode::Insert => Some(110),  // KEY_INSERT
            KeyCode::Delete => Some(111),  // KEY_DELETE
            KeyCode::Backspace => Some(14),  // KEY_BACKSPACE
            KeyCode::Space => Some(57),  // KEY_SPACE
            KeyCode::Tab => Some(15),  // KEY_TAB
            KeyCode::Return => Some(28),  // KEY_ENTER
            KeyCode::NumpadEnter => Some(28),  // KEY_ENTER
            KeyCode::Escape => Some(1),  // KEY_ESC
            KeyCode::CapsLock => Some(58),  // KEY_CAPSLOCK
            KeyCode::F1 => Some(59),  // KEY_F1
            KeyCode::F2 => Some(60),  // KEY_F2
            KeyCode::F3 => Some(61),  // KEY_F3
            KeyCode::F4 => Some(62),  // KEY_F4
            KeyCode::F5 => Some(63),  // KEY_F5
            KeyCode::F6 => Some(64),  // KEY_F6
            KeyCode::F7 => Some(65),  // KEY_F7
            KeyCode::F8 => Some(66),  // KEY_F8
            KeyCode::F9 => Some(67),  // KEY_F9
            KeyCode::F10 => Some(68),  // KEY_F10
            KeyCode::F11 => Some(87),  // KEY_F11
            KeyCode::F12 => Some(88),  // KEY_F12
            KeyCode::Minus => Some(12),  // KEY_MINUS
            KeyCode::Equals => Some(13),  // KEY_EQUAL
            KeyCode::LeftBracket => Some(26),  // KEY_LEFTBRACE
            KeyCode::RightBracket => Some(27),  // KEY_RIGHTBRACE
            KeyCode::Backslash => Some(43),  // KEY_BACKSLASH
            KeyCode::Semicolon => Some(39),  // KEY_SEMICOLON
            KeyCode::Quote => Some(40),  // KEY_APOSTROPHE
            KeyCode::Comma => Some(51),  // KEY_COMMA
            KeyCode::Period => Some(52),  // KEY_DOT
            KeyCode::Slash => Some(53),  // KEY_SLASH
            KeyCode::Backtick => Some(41),  // KEY_GRAVE
            KeyCode::Numpad0 => Some(82),  // KEY_KP0
            KeyCode::Numpad1 => Some(79),  // KEY_KP1
            KeyCode::Numpad2 => Some(80),  // KEY_KP2
            KeyCode::Numpad3 => Some(81),  // KEY_KP3
            KeyCode::Numpad4 => Some(75),  // KEY_KP4
            KeyCode::Numpad5 => Some(76),  // KEY_KP5
            KeyCode::Numpad6 => Some(77),  // KEY_KP6
            KeyCode::Numpad7 => Some(71),  // KEY_KP7
            KeyCode::Numpad8 => Some(72),  // KEY_KP8
            KeyCode::Numpad9 => Some(73),  // KEY_KP9
            KeyCode::NumpadAdd => Some(78),  // KEY_KPPLUS
            KeyCode::NumpadSubtract => Some(74),  // KEY_KPMINUS
            KeyCode::NumpadMultiply => Some(55),  // KEY_KPASTERISK
            KeyCode::NumpadDivide => Some(98),  // KEY_KPSLASH
            KeyCode::NumpadDecimal => Some(83),  // KEY_KPDOT
            KeyCode::PrintScreen => Some(99),  // KEY_SYSRQ
            KeyCode::ScrollLock => Some(70),  // KEY_SCROLLLOCK
            KeyCode::Pause => Some(119),  // KEY_PAUSE
            KeyCode::Menu => Some(127),  // KEY_COMPOSE
            KeyCode::Option => Some(56),  // KEY_LEFTALT
        _ => None,
    }
}

/// Maps a protocol key to the Linux key code that plays it, if any.
pub fn keycode_to_evdev_key(key: &KeyCode) -> (code: Option<u16>)
    ensures
        code == evdev_code_of(*key),
{
    match key {
        KeyCode::Unicode(c) => match key_for_char(*c) {
            Some(k) => base_evdev_key(k),
            None => None,
        },
        _ => base_evdev_key(*key),
    }
}

/// The Linux input-event code of a mouse button.
pub open spec fn spec_mousebutton_code(btn: MouseButton) -> u16 {
    match btn {
        MouseButton::Left => BTN_LEFT,
        MouseButton::Right => BTN_RIGHT,
        MouseButton::Middle => BTN_MIDDLE,
        MouseButton::X1 => BTN_SIDE,
        MouseButton::X2 => BTN_EXTRA,
    }
}

/// Maps a mouse button to its Linux input-event code.
pub fn mousebutton_to_evdev_code(btn: &MouseButton) -> (code: u16)
    ensures
        code == spec_mousebutton_code(*btn),
{
    match btn {
        MouseButton::Left => BTN_LEFT,
        MouseButton::Right => BTN_RIGHT,
        MouseButton::Middle => BTN_MIDDLE,
        MouseButton::X1 => BTN_SIDE,
        MouseButton::X2 => BTN_EXTRA,
    }
}

/// The key a captured key code reads back as: aliases of a key are played by
/// that key, and a character by the key that types it.
pub open spec fn canonical_key(key: KeyCode) -> KeyCode {
    match key {
        KeyCode::Super => KeyCode::MetaLeft,
        KeyCode::Option => KeyCode::Alt,
        KeyCode::NumpadEnter => KeyCode::Return,
        KeyCode::Unicode(c) => match char_key(c) {
            Some(k) => k,
            None => key,
        },
        _ => key,
    }
}

/// Law: a captured key, sent to the other machine and played there, presses
/// the same Linux key it came from; the one exception is keypad Enter, which is
/// played as the main Enter key.
pub proof fn lemma_captured_key_replays(code: u16)
    requires
        keycode_of_evdev(code) is Some,
    ensures
        code != KEY_KPENTER ==> evdev_code_of(keycode_of_evdev(code)->0) == Some(code),
        code == KEY_KPENTER ==> evdev_code_of(keycode_of_evdev(code)->0) == Some(KEY_ENTER),
{
}

/// Law: a key that can be played is captured back as that key, up to its
/// alias (Super, Option, keypad Enter, and characters are captured as the key
/// that plays them).
pub proof fn lemma_played_key_captures(key: KeyCode)
    requires
        evdev_code_of(key) is Some,
    ensures
        keycode_of_evdev(evdev_code_of(key)->0) == Some(canonical_key(key)),
{
}

/// Linux input-event types.
pub const EV_SYN: u16 = 0;
pub const EV_KEY: u16 = 1;
pub const EV_REL: u16 = 2;
pub const EV_ABS: u16 = 3;

/// Linux relative-axis codes.
pub const REL_X: u16 = 0;
pub const REL_Y: u16 = 1;
pub const REL_WHEEL: u16 = 8;

/// Linux absolute-axis codes.
pub const ABS_X: u16 = 0;
pub const ABS_Y: u16 = 1;

/// The flags a capture session shares with the rest of the program: whether
/// input is currently forwarded to the remote machine, and whether capture has
/// been asked to stop.
#[derive(Clone, Copy, Debug, PartialEq, Eq, Structural)]
pub struct CaptureState {
    pub is_remote: bool,
    pub stopped: bool,
}

impl CaptureState {
    /// A session that forwards nothing and has not been stopped.
    pub fn new() -> (s: Self)
        ensures
            !s.is_remote,
            !s.stopped,
    {
        CaptureState { is_remote: false, stopped: false }
    }
}

/// Resets the flags for a fresh capture session: local control, not stopped.
pub fn begin_capture(state: &mut CaptureState)
    ensures
        !final(state).is_remote,
        !final(state).stopped,
{
    state.is_remote = false;
    state.stopped = false;
}

/// Asks the capture loop to stop; the remote flag is left as it is.
pub fn stop_capture(state: &mut CaptureState)
    ensures
        final(state).stopped,
        final(state).is_remote == old(state).is_remote,
{
    state.stopped = true;
}

/// Switches remote mode on or off by hand and returns the new mode.
pub fn toggle_remote(state: &mut CaptureState) -> (now_remote: bool)
    ensures
        now_remote == !old(state).is_remote,
        final(state).is_remote == now_remote,
        final(state).stopped == old(state).stopped,
{
    let new = !state.is_remote;
    state.is_remote = new;
    new
}

/// Whether input is currently forwarded to the remote machine.
pub fn is_remote(state: &CaptureState) -> (r: bool)
    ensures
        r == state.is_remote,
{
    state.is_remote
}

/// Law: toggling remote mode twice restores the mode it started in.
pub proof fn lemma_toggle_twice_restores(s: CaptureState, s1: CaptureState, s2: CaptureState)
    requires
        s1.is_remote == !s.is_remote,
        s1.stopped == s.stopped,
        s2.is_remote == !s1.is_remote,
        s2.stopped == s1.stopped,
    ensures
        s2 == s,
{
}

/// An input action, as captured on the controlling machine or played on the
/// controlled one. Coordinates and deltas are whole pixels or wheel steps.
#[derive(Clone, Copy, Debug, PartialEq, Eq, Structural)]
pub enum InputAction {
    MouseMoved(i32, i32),
    MouseMoveRelative(i32, i32),
    MouseButtonDown(MouseButton),
    MouseButtonUp(MouseButton),
    MouseScroll(i32, i32),
    KeyDown(KeyCode),
    KeyUp(KeyCode),
}

/// What the capture loop remembers between raw input events: the edge
/// detector for relative motion and the last absolute position seen.
pub struct CaptureTracker {
    pub edge: EdgeDetector,
    pub last_abs_x: i32,
    pub last_abs_y: i32,
}

impl CaptureTracker {
    /// A tracker whose detector needs `threshold` same-direction motions.
    pub fn new(threshold: u32) -> (t: Self)
        ensures
            t.edge.is_fresh(threshold),
            t.last_abs_x == 0,
            t.last_abs_y == 0,
    {
        CaptureTracker { edge: EdgeDetector::new(threshold), last_abs_x: 0, last_abs_y: 0 }
    }
}

/// The mouse button a Linux button code stands for, if any. The side and
/// extra buttons are included because the protocol names them (X1, X2) and
/// the controlled machine plays them on these same codes, so capture and
/// playback agree on every button.
pub open spec fn button_of_evdev(code: u16) -> Option<MouseButton> {
    if code == BTN_LEFT {
        Some(MouseButton::Left)
    } else if code == BTN_RIGHT {
        Some(MouseButton::Right)
    } else if code == BTN_MIDDLE {
        Some(MouseButton::Middle)
    } else if code == BTN_SIDE {
        Some(MouseButton::X1)
    } else if code == BTN_EXTRA {
        Some(MouseButton::X2)
    } else {
        None
    }
}

/// Maps a Linux button code to the protocol's mouse button, if it is one.
pub fn evdev_code_to_mousebutton(code: u16) -> (b: Option<MouseButton>)
    ensures
        b == button_of_evdev(code),
{
    if code == BTN_LEFT {
        Some(MouseButton::Left)
    } else if code == BTN_RIGHT {
        Some(MouseButton::Right)
    } else if code == BTN_MIDDLE {
        Some(MouseButton::Middle)
    } else if code == BTN_SIDE {
        Some(MouseButton::X1)
    } else if code == BTN_EXTRA {
        Some(MouseButton::X2)
    } else {
        None
    }
}

/// Law: a button played on the other machine is captured back as the same
/// button, and button codes are no keys.
pub proof fn lemma_buttons_round_trip(b: MouseButton)
    ensures
        button_of_evdev(spec_mousebutton_code(b)) == Some(b),
        keycode_of_evdev(spec_mousebutton_code(b)) is None,
{
}

/// What a key or button event forwards: a button press or release for a
/// mouse button code, a key press or release for a forwarded key, nothing
/// otherwise. A value of zero is a release.
pub open spec fn key_event_action(code: u16, value: i32) -> Option<InputAction> {
    match button_of_evdev(code) {
        Some(b) => Some(
            if value != 0 {
                InputAction::MouseButtonDown(b)
            } else {
                InputAction::MouseButtonUp(b)
            },
        ),
        None => match keycode_of_evdev(code) {
            Some(k) => Some(
                if value != 0 {
                    InputAction::KeyDown(k)
                } else {
                    InputAction::KeyUp(k)
                },
            ),
            None => None,
        },
    }
}

/// The remote mode after an edge report from relative motion: the right edge
/// turns forwarding on, the left edge turns it off.
pub open spec fn remote_after_edge(remote: bool, fired: Option<bool>) -> bool {
    match fired {
        Some(true) => true,
        Some(false) => false,
        None => remote,
    }
}

/// The remote mode after an absolute X position: reaching the right edge turns
/// forwarding on, reaching the left edge while forwarding turns it off.
pub open spec fn remote_after_abs_x(remote: bool, near_right: bool, near_left: bool) -> bool {
    if !remote && near_right {
        true
    } else if remote && near_left {
        false
    } else {
        remote
    }
}

/// Whether a raw event can be handled without a streak counter overflowing.
pub open spec fn can_handle(tracker: CaptureTracker, kind: u16, code: u16, value: i32) -> bool {
    kind == EV_REL && code == REL_X ==> tracker.edge.can_step(value)
}

/// Handles one raw Linux input event on the controlling machine.
///
/// `kind`, `code` and `value` are the event's fields; for an absolute X
/// position the caller says whether it lies within the edge threshold of the
/// right (`near_right`) or left (`near_left`) screen edge. Relative X motion
/// feeds the edge detector, whose right and left reports switch forwarding on
/// and off; an absolute X position at an edge does the same and resets the
/// detector. Absolute positions are forwarded with both coordinates, the
/// other one taken from the last position seen; mouse buttons and keys are
/// forwarded as presses and releases. Returns the action to send to the
/// remote machine, if forwarding is on after the event; nothing is forwarded
/// while input stays local.
pub fn handle_evdev_event(
    state: &mut CaptureState,
    tracker: &mut CaptureTracker,
    kind: u16,
    code: u16,
    value: i32,
    near_right: bool,
    near_left: bool,
) -> (action: Option<InputAction>)
    requires
        can_handle(*old(tracker), kind, code, value),
    ensures
        final(state).stopped == old(state).stopped,
        action is Some ==> final(state).is_remote,
        kind == EV_REL && code == REL_X ==> {
            let (e, fired) = old(tracker).edge.step(value);
            let remote = remote_after_edge(old(state).is_remote, fired);
            &&& final(tracker).edge == e
            &&& final(tracker).last_abs_x == old(tracker).last_abs_x
            &&& final(state).is_remote == remote
            &&& action == if remote { Some(InputAction::MouseMoveRelative(value, 0)) } else { None }
        },
        kind == EV_REL && code == REL_Y ==> {
            &&& *final(tracker) == *old(tracker)
            &&& *final(state) == *old(state)
            &&& action == if old(state).is_remote { Some(InputAction::MouseMoveRelative(0, value)) } else { None }
        },
        kind == EV_REL && code == REL_WHEEL ==> {
            &&& *final(tracker) == *old(tracker)
            &&& *final(state) == *old(state)
            &&& action == if old(state).is_remote { Some(InputAction::MouseScroll(0, value)) } else { None }
        },
        kind == EV_ABS && code == ABS_X ==> {
            let remote = remote_after_abs_x(old(state).is_remote, near_right, near_left);
            &&& final(tracker).last_abs_x == value
            &&& final(tracker).edge == if remote != old(state).is_remote {
                EdgeDetector {
                    right_streak: 0,
                    left_streak: 0,
                    was_right_edge: false,
                    was_left_edge: false,
                    ..old(tracker).edge
                }
            } else {
                old(tracker).edge
            }
            &&& final(state).is_remote == remote
            &&& final(tracker).last_abs_y == old(tracker).last_abs_y
            &&& action == if remote {
                Some(InputAction::MouseMoved(value, old(tracker).last_abs_y))
            } else {
                None
            }
        },
        kind == EV_ABS && code == ABS_Y ==> {
            &&& *final(tracker) == CaptureTracker { last_abs_y: value, ..*old(tracker) }
            &&& *final(state) == *old(state)
            &&& action == if old(state).is_remote {
                Some(InputAction::MouseMoved(old(tracker).last_abs_x, value))
            } else {
                None
            }
        },
        kind == EV_KEY ==> {
            &&& *final(tracker) == *old(tracker)
            &&& *final(state) == *old(state)
            &&& action == if old(state).is_remote { key_event_action(code, value) } else { None }
        },
        !(kind == EV_REL && (code == REL_X || code == REL_Y || code == REL_WHEEL))
            && !(kind == EV_ABS && (code == ABS_X || code == ABS_Y)) && kind != EV_KEY ==> {
            &&& *final(tracker) == *old(tracker)
            &&& *final(state) == *old(state)
            &&& action is None
        },
{
    let currently_remote = state.is_remote;
    if kind == EV_REL {
        if code == REL_X {
            if let Some(is_right) = tracker.edge.feed_rel_x(value) {
                if is_right && !currently_remote {
                    state.is_remote = true;
                } else if !is_right && currently_remote {
                    state.is_remote = false;
                }
            }
            if state.is_remote {
                return Some(InputAction::MouseMoveRelative(value, 0));
            }
        } else if code == REL_Y {
            if state.is_remote {
                return Some(InputAction::MouseMoveRelative(0, value));
            }
        } else if code == REL_WHEEL {
            if state.is_remote {
                return Some(InputAction::MouseScroll(0, value));
            }
        }
        None
    } else if kind == EV_ABS {
        if code == ABS_X {
            tracker.last_abs_x = value;
            if !currently_remote && near_right {
                state.is_remote = true;
                tracker.edge.reset();
            } else if currently_remote && near_left {
                state.is_remote = false;
                tracker.edge.reset();
            }
            if state.is_remote {
                return Some(InputAction::MouseMoved(value, tracker.last_abs_y));
            }
        } else if code == ABS_Y {
            tracker.last_abs_y = value;
            if state.is_remote {
                return Some(InputAction::MouseMoved(tracker.last_abs_x, value));
            }
        }
        None
    } else if kind == EV_KEY {
        if state.is_remote {
            if let Some(b) = evdev_code_to_mousebutton(code) {
                if value != 0 {
                    return Some(InputAction::MouseButtonDown(b));
                } else {
                    return Some(InputAction::MouseButtonUp(b));
                }
            }
            if let Some(kc) = evdev_key_to_keycode(code) {
                if value != 0 {
                    return Some(InputAction::KeyDown(kc));
                } else {
                    return Some(InputAction::KeyUp(kc));
                }
            }
        }
        None
    } else {
        None
    }
}

/// One Linux input event to emit on a virtual device.
#[derive(Clone, Copy, Debug, PartialEq, Eq, Structural)]
pub struct InputRecord {
    pub kind: u16,
    pub code: u16,
    pub value: i32,
}

/// The event that ends a report.
pub open spec fn sync_record() -> InputRecord {
    InputRecord { kind: EV_SYN, code: 0, value: 0 }
}

/// The Linux input events that play an action on a virtual device, ending with
/// a synchronisation event; a key with no Linux code plays nothing.
pub open spec fn spec_simulation_records(action: InputAction) -> Seq<InputRecord> {
    match action {
        InputAction::MouseMoved(x, y) => seq![
            InputRecord { kind: EV_ABS, code: ABS_X, value: x },
            InputRecord { kind: EV_ABS, code: ABS_Y, value: y },
            sync_record(),
        ],
        InputAction::MouseMoveRelative(dx, dy) => seq![
            InputRecord { kind: EV_REL, code: REL_X, value: dx },
            InputRecord { kind: EV_REL, code: REL_Y, value: dy },
            sync_record(),
        ],
        InputAction::MouseButtonDown(btn) => seq![
            InputRecord { kind: EV_KEY, code: spec_mousebutton_code(btn), value: 1 },
            sync_record(),
        ],
        InputAction::MouseButtonUp(btn) => seq![
            InputRecord { kind: EV_KEY, code: spec_mousebutton_code(btn), value: 0 },
            sync_record(),
        ],
        InputAction::MouseScroll(_dx, dy) => seq![
            InputRecord { kind: EV_REL, code: REL_WHEEL, value: dy },
            sync_record(),
        ],
        InputAction::KeyDown(key) => match evdev_code_of(key) {
            Some(code) => seq![InputRecord { kind: EV_KEY, code: code, value: 1 }, sync_record()],
            None => Seq::empty(),
        },
        InputAction::KeyUp(key) => match evdev_code_of(key) {
            Some(code) => seq![InputRecord { kind: EV_KEY, code: code, value: 0 }, sync_record()],
            None => Seq::empty(),
        },
    }
}

fn sync() -> (r: InputRecord)
    ensures
        r == sync_record(),
{
    InputRecord { kind: EV_SYN, code: 0, value: 0 }
}

/// The Linux input events that play `action` on the controlled machine.
pub fn simulation_records(action: &InputAction) -> (records: Vec<InputRecord>)
    ensures
        records@ == spec_simulation_records(*action),
{
    match action {
        InputAction::MouseMoved(x, y) => vec![
            InputRecord { kind: EV_ABS, code: ABS_X, value: *x },
            InputRecord { kind: EV_ABS, code: ABS_Y, value: *y },
            sync(),
        ],
        InputAction::MouseMoveRelative(dx, dy) => vec![
            InputRecord { kind: EV_REL, code: REL_X, value: *dx },
            InputRecord { kind: EV_REL, code: REL_Y, value: *dy },
            sync(),
        ],
        InputAction::MouseButtonDown(btn) => vec![
            InputRecord { kind: EV_KEY, code: mousebutton_to_evdev_code(btn), value: 1 },
            sync(),
        ],
        InputAction::MouseButtonUp(btn) => vec![
            InputRecord { kind: EV_KEY, code: mousebutton_to_evdev_code(btn), value: 0 },
            sync(),
        ],
        InputAction::MouseScroll(_dx, dy) => vec![
            InputRecord { kind: EV_REL, code: REL_WHEEL, value: *dy },
            sync(),
        ],
        InputAction::KeyDown(key) => match keycode_to_evdev_key(key) {
            Some(code) => vec![InputRecord { kind: EV_KEY, code, value: 1 }, sync()],
            None => Vec::new(),
        },
        InputAction::KeyUp(key) => match keycode_to_evdev_key(key) {
            Some(code) => vec![InputRecord { kind: EV_KEY, code, value: 0 }, sync()],
            None => Vec::new(),
        },
    }
}

/// The effective number of same-direction motions needed to fire: a threshold
/// of zero behaves as one.
pub open spec fn effective_threshold(threshold: u32) -> nat {
    if threshold == 0 { 1 } else { threshold as nat }
}

proof fn lemma_run_positive_armed(d: EdgeDetector, values: Seq<i32>)
    requires
        d.was_right_edge,
        forall|i: int| 0 <= i < values.len() ==> values[i] > 0,
    ensures
        d.run(values).1.len() == values.len(),
        forall|i: int| 0 <= i < values.len() ==> d.run(values).1[i] is None,
    decreases values.len(),
{
    if values.len() > 0 {
        let d1 = d.step(values[0]).0;
        let tail = values.drop_first();
        lemma_run_positive_armed(d1, tail);
        assert forall|i: int| 0 <= i < values.len() implies d.run(values).1[i] is None by {
            if i > 0 {
                assert(d.run(values).1[i] == d1.run(tail).1[i - 1]);
            }
        }
    }
}

proof fn lemma_run_positive(d: EdgeDetector, values: Seq<i32>)
    requires
        !d.was_right_edge,
        (d.right_streak as nat) < effective_threshold(d.threshold),
        forall|i: int| 0 <= i < values.len() ==> values[i] > 0,
    ensures
        d.run(values).1.len() == values.len(),
        forall|i: int|
            0 <= i < values.len() ==> d.run(values).1[i] == (if d.right_streak + i + 1
                == effective_threshold(d.threshold) {
                Some(true)
            } else {
                None::<bool>
            }),
    decreases values.len(),
{
    if values.len() > 0 {
        let (d1, o) = d.step(values[0]);
        let tail = values.drop_first();
        assert forall|i: int| 0 <= i < tail.len() implies tail[i] > 0 by {
            assert(tail[i] == values[i + 1]);
        }
        if d.right_streak + 1 == effective_threshold(d.threshold) {
            assert(o == Some(true));
            lemma_run_positive_armed(d1, tail);
        } else {
            assert(o is None);
            lemma_run_positive(d1, tail);
        }
        assert forall|i: int| 0 <= i < values.len() implies d.run(values).1[i] == (if d.right_streak
            + i + 1 == effective_threshold(d.threshold) {
            Some(true)
        } else {
            None::<bool>
        }) by {
            if i > 0 {
                assert(d.run(values).1[i] == d1.run(tail).1[i - 1]);
            }
        }
    }
}

/// Law: from a fresh detector, a run of rightward motions fires the right edge
/// exactly once, on the motion that completes the threshold, and stays silent
/// before and after it.
pub proof fn lemma_right_streak_fires_once(d: EdgeDetector, values: Seq<i32>)
    requires
        d.is_fresh(d.threshold),
        forall|i: int| 0 <= i < values.len() ==> values[i] > 0,
    ensures
        d.run(values).1.len() == values.len(),
        forall|i: int|
            0 <= i < values.len() ==> d.run(values).1[i] == (if i + 1 == effective_threshold(
                d.threshold,
            ) {
                Some(true)
            } else {
                None::<bool>
            }),
{
    lemma_run_positive(d, values);
}

/// The first edge that fires in a run is never the one already armed.
proof fn lemma_first_fire_differs(d: EdgeDetector, values: Seq<i32>, j: int)
    requires
        d.well_formed(),
        0 <= j < values.len(),
        d.run(values).1[j] is Some,
        forall|k: int| 0 <= k < j ==> d.run(values).1[k] is None,
    ensures
        d.run(values).1[j] != d.armed(),
    decreases values.len(),
{
    let (d1, o) = d.step(values[0]);
    let tail = values.drop_first();
    lemma_run_len(d1, tail);
    if j > 0 {
        assert(d.run(values).1[0] is None);
        assert forall|k: int| 0 <= k < j - 1 implies d1.run(tail).1[k] is None by {
            assert(d.run(values).1[k + 1] == d1.run(tail).1[k]);
        }
        assert(d.run(values).1[j] == d1.run(tail).1[j - 1]);
        lemma_first_fire_differs(d1, tail, j - 1);
    }
}

proof fn lemma_run_len(d: EdgeDetector, values: Seq<i32>)
    ensures
        d.run(values).1.len() == values.len(),
    decreases values.len(),
{
    if values.len() > 0 {
        lemma_run_len(d.step(values[0]).0, values.drop_first());
    }
}

/// Law: the two edges alternate. Of any two firings with no firing between
/// them, one is the right edge and the other the left; so an edge that has
/// fired cannot fire again until the opposite edge has.
pub proof fn lemma_edges_alternate(d: EdgeDetector, values: Seq<i32>, i: int, j: int)
    requires
        d.well_formed(),
        0 <= i < j < values.len(),
        d.run(values).1[i] is Some,
        d.run(values).1[j] is Some,
        forall|k: int| i < k < j ==> d.run(values).1[k] is None,
    ensures
        d.run(values).1[i] != d.run(values).1[j],
    decreases values.len(),
{
    let (d1, o) = d.step(values[0]);
    let tail = values.drop_first();
    lemma_run_len(d1, tail);
    assert(d.run(values).1[j] == d1.run(tail).1[j - 1]);
    if i == 0 {
        assert forall|k: int| 0 <= k < j - 1 implies d1.run(tail).1[k] is None by {
            assert(d.run(values).1[k + 1] == d1.run(tail).1[k]);
        }
        lemma_first_fire_differs(d1, tail, j - 1);
    } else {
        assert(d.run(values).1[i] == d1.run(tail).1[i - 1]);
        assert forall|k: int| i - 1 < k < j - 1 implies d1.run(tail).1[k] is None by {
            assert(d.run(values).1[k + 1] == d1.run(tail).1[k]);
        }
        lemma_edges_alternate(d1, tail, i - 1, j - 1);
    }
}

/// Law: every motion keeps the detector's invariant, whatever the counters
/// hold: at most one edge is armed and at most one direction has a running
/// streak. A fresh or reset detector satisfies it.
pub proof fn lemma_step_keeps_invariant(d: EdgeDetector, value: i32)
    requires
        d.well_formed(),
        d.streaks_exclusive(),
    ensures
        d.step(value).0.well_formed(),
        d.step(value).0.streaks_exclusive(),
        d.step(value).0.threshold == d.threshold,
{
}

/// Law: a fresh detector satisfies the invariant.
pub proof fn lemma_fresh_detector_invariant(d: EdgeDetector, threshold: u32)
    requires
        d.is_fresh(threshold),
    ensures
        d.well_formed(),
        d.streaks_exclusive(),
{
}

/// Law: while remote, a key event on a forwarded key is a press for every
/// nonzero value (1 for the first press, 2 for the kernel's auto-repeat while
/// the key is held) and a release only for 0; a button code likewise presses
/// or releases its button.
pub proof fn lemma_nonzero_key_value_is_press(code: u16, value: i32)
    ensures
        button_of_evdev(code) is None && keycode_of_evdev(code) is Some ==> key_event_action(
            code,
            value,
        ) == Some(
            if value == 0 {
                InputAction::KeyUp(keycode_of_evdev(code)->0)
            } else {
                InputAction::KeyDown(keycode_of_evdev(code)->0)
            },
        ),
        button_of_evdev(code) is Some ==> key_event_action(code, value) == Some(
            if value == 0 {
                InputAction::MouseButtonUp(button_of_evdev(code)->0)
            } else {
                InputAction::MouseButtonDown(button_of_evdev(code)->0)
            },
        ),
        value != 0 && value != 1 && keycode_of_evdev(code) is Some && button_of_evdev(code) is None
            ==> key_event_action(code, value) == key_event_action(code, 1),
{
}

} // verus!
