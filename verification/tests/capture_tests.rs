use freemouse::capture::{
    evdev_code_to_mousebutton,
    begin_capture, evdev_key_to_keycode, handle_evdev_event, is_remote, key_for_char,
    keycode_to_evdev_key, mousebutton_to_evdev_code, simulation_records, stop_capture,
    toggle_remote, CaptureState, CaptureTracker, InputAction, InputRecord, ABS_X, ABS_Y, EV_ABS,
    EV_KEY, EV_REL, EV_SYN, REL_WHEEL, REL_X, REL_Y,
};
use evdev::Key;
use freemouse::network::{KeyCode, MouseButton};

#[test]
fn capture_flags_toggle_and_stop() {
    let mut s = CaptureState::new();
    assert!(!is_remote(&s));
    assert!(toggle_remote(&mut s));
    assert!(is_remote(&s));
    assert!(!toggle_remote(&mut s));
    assert!(!is_remote(&s));
    toggle_remote(&mut s);
    stop_capture(&mut s);
    assert!(s.stopped);
    assert!(is_remote(&s));
    begin_capture(&mut s);
    assert!(!s.stopped);
    assert!(!is_remote(&s));
}

#[test]
fn evdev_codes_agree_with_evdev_crate() {
    assert_eq!(evdev_key_to_keycode(Key::KEY_A.code()), Some(KeyCode::A));
    assert_eq!(evdev_key_to_keycode(Key::KEY_Z.code()), Some(KeyCode::Z));
    assert_eq!(evdev_key_to_keycode(Key::KEY_0.code()), Some(KeyCode::Num0));
    assert_eq!(evdev_key_to_keycode(Key::KEY_ENTER.code()), Some(KeyCode::Return));
    assert_eq!(evdev_key_to_keycode(Key::KEY_KPENTER.code()), Some(KeyCode::NumpadEnter));
    assert_eq!(evdev_key_to_keycode(Key::KEY_LEFTMETA.code()), Some(KeyCode::MetaLeft));
    assert_eq!(evdev_key_to_keycode(Key::KEY_F12.code()), Some(KeyCode::F12));
    assert_eq!(evdev_key_to_keycode(Key::KEY_COMPOSE.code()), Some(KeyCode::Menu));
    assert_eq!(evdev_key_to_keycode(Key::KEY_SYSRQ.code()), Some(KeyCode::PrintScreen));
    assert_eq!(evdev_key_to_keycode(Key::KEY_NUMLOCK.code()), None);
    assert_eq!(evdev_key_to_keycode(Key::BTN_LEFT.code()), None);
    assert_eq!(keycode_to_evdev_key(&KeyCode::A), Some(Key::KEY_A.code()));
    assert_eq!(keycode_to_evdev_key(&KeyCode::Super), Some(Key::KEY_LEFTMETA.code()));
    assert_eq!(keycode_to_evdev_key(&KeyCode::Option), Some(Key::KEY_LEFTALT.code()));
    assert_eq!(keycode_to_evdev_key(&KeyCode::NumpadEnter), Some(Key::KEY_ENTER.code()));
    assert_eq!(keycode_to_evdev_key(&KeyCode::F13), None);
    assert_eq!(keycode_to_evdev_key(&KeyCode::VolumeUp), None);
    assert_eq!(keycode_to_evdev_key(&KeyCode::Other(42)), None);
    assert_eq!(mousebutton_to_evdev_code(&MouseButton::Left), Key::BTN_LEFT.code());
    assert_eq!(mousebutton_to_evdev_code(&MouseButton::Right), Key::BTN_RIGHT.code());
    assert_eq!(mousebutton_to_evdev_code(&MouseButton::Middle), Key::BTN_MIDDLE.code());
    assert_eq!(mousebutton_to_evdev_code(&MouseButton::X1), Key::BTN_SIDE.code());
    assert_eq!(mousebutton_to_evdev_code(&MouseButton::X2), Key::BTN_EXTRA.code());
}

#[test]
fn unicode_keys_map_to_their_keys() {
    assert_eq!(keycode_to_evdev_key(&KeyCode::Unicode('q')), Some(Key::KEY_Q.code()));
    assert_eq!(keycode_to_evdev_key(&KeyCode::Unicode('Q')), Some(Key::KEY_Q.code()));
    assert_eq!(keycode_to_evdev_key(&KeyCode::Unicode('7')), Some(Key::KEY_7.code()));
    assert_eq!(keycode_to_evdev_key(&KeyCode::Unicode('€')), None);
    assert_eq!(keycode_to_evdev_key(&KeyCode::Unicode('-')), None);
    assert_eq!(key_for_char('m'), Some(KeyCode::M));
    assert_eq!(key_for_char('0'), Some(KeyCode::Num0));
    assert_eq!(key_for_char(' '), None);
}

#[test]
fn every_captured_key_replays_to_the_same_code() {
    for code in 0u16..=0x2ff {
        if let Some(key) = evdev_key_to_keycode(code) {
            let back = keycode_to_evdev_key(&key);
            if code == 96 {
                assert_eq!(back, Some(28));
            } else {
                assert_eq!(back, Some(code));
            }
        }
    }
}

#[test]
fn relative_motion_switches_to_remote_at_right_edge() {
    let mut s = CaptureState::new();
    let mut t = CaptureTracker::new(3);
    assert_eq!(handle_evdev_event(&mut s, &mut t, EV_REL, REL_X, 4, false, false), None);
    assert_eq!(handle_evdev_event(&mut s, &mut t, EV_REL, REL_X, 4, false, false), None);
    assert_eq!(
        handle_evdev_event(&mut s, &mut t, EV_REL, REL_X, 4, false, false),
        Some(InputAction::MouseMoveRelative(4, 0))
    );
    assert!(s.is_remote);
    assert_eq!(
        handle_evdev_event(&mut s, &mut t, EV_REL, REL_Y, -2, false, false),
        Some(InputAction::MouseMoveRelative(0, -2))
    );
    assert_eq!(
        handle_evdev_event(&mut s, &mut t, EV_REL, REL_WHEEL, 1, false, false),
        Some(InputAction::MouseScroll(0, 1))
    );
    for _ in 0..2 {
        assert_eq!(
            handle_evdev_event(&mut s, &mut t, EV_REL, REL_X, -1, false, false),
            Some(InputAction::MouseMoveRelative(-1, 0))
        );
    }
    assert_eq!(handle_evdev_event(&mut s, &mut t, EV_REL, REL_X, -1, false, false), None);
    assert!(!s.is_remote);
}

#[test]
fn local_mode_forwards_nothing() {
    let mut s = CaptureState::new();
    let mut t = CaptureTracker::new(3);
    assert_eq!(handle_evdev_event(&mut s, &mut t, EV_REL, REL_Y, 5, false, false), None);
    assert_eq!(handle_evdev_event(&mut s, &mut t, EV_KEY, 30, 1, false, false), None);
    assert_eq!(handle_evdev_event(&mut s, &mut t, EV_ABS, ABS_Y, 100, false, false), None);
    assert_eq!(t.last_abs_y, 100);
    assert_eq!(handle_evdev_event(&mut s, &mut t, EV_KEY, 0x110, 1, false, false), None);
    assert_eq!(handle_evdev_event(&mut s, &mut t, EV_SYN, 0, 0, false, false), None);
}

#[test]
fn absolute_position_switches_modes_and_forwards() {
    let mut s = CaptureState::new();
    let mut t = CaptureTracker::new(3);
    assert_eq!(handle_evdev_event(&mut s, &mut t, EV_ABS, ABS_X, 500, false, false), None);
    assert_eq!(t.last_abs_x, 500);
    assert_eq!(
        handle_evdev_event(&mut s, &mut t, EV_ABS, ABS_X, 1917, true, false),
        Some(InputAction::MouseMoved(1917, 0))
    );
    assert!(s.is_remote);
    assert_eq!(
        handle_evdev_event(&mut s, &mut t, EV_ABS, ABS_Y, 300, false, false),
        Some(InputAction::MouseMoved(1917, 300))
    );
    assert_eq!(t.last_abs_y, 300);
    assert_eq!(
        handle_evdev_event(&mut s, &mut t, EV_ABS, ABS_X, 1000, false, false),
        Some(InputAction::MouseMoved(1000, 300))
    );
    assert_eq!(
        handle_evdev_event(&mut s, &mut t, EV_KEY, 30, 1, false, false),
        Some(InputAction::KeyDown(KeyCode::A))
    );
    assert_eq!(
        handle_evdev_event(&mut s, &mut t, EV_KEY, 30, 0, false, false),
        Some(InputAction::KeyUp(KeyCode::A))
    );
    assert_eq!(
        handle_evdev_event(&mut s, &mut t, EV_KEY, 0x110, 1, false, false),
        Some(InputAction::MouseButtonDown(MouseButton::Left))
    );
    assert_eq!(
        handle_evdev_event(&mut s, &mut t, EV_KEY, 0x110, 0, false, false),
        Some(InputAction::MouseButtonUp(MouseButton::Left))
    );
    assert_eq!(
        handle_evdev_event(&mut s, &mut t, EV_KEY, 0x111, 1, false, false),
        Some(InputAction::MouseButtonDown(MouseButton::Right))
    );
    assert_eq!(
        handle_evdev_event(&mut s, &mut t, EV_KEY, 0x112, 0, false, false),
        Some(InputAction::MouseButtonUp(MouseButton::Middle))
    );
    assert_eq!(
        handle_evdev_event(&mut s, &mut t, EV_KEY, 0x113, 1, false, false),
        Some(InputAction::MouseButtonDown(MouseButton::X1))
    );
    assert_eq!(handle_evdev_event(&mut s, &mut t, EV_ABS, ABS_X, 3, false, true), None);
    assert!(!s.is_remote);
}

#[test]
fn simulation_records_play_actions() {
    let sync = InputRecord { kind: EV_SYN, code: 0, value: 0 };
    assert_eq!(
        simulation_records(&InputAction::MouseMoved(10, 20)),
        vec![
            InputRecord { kind: EV_ABS, code: ABS_X, value: 10 },
            InputRecord { kind: EV_ABS, code: ABS_Y, value: 20 },
            sync
        ]
    );
    assert_eq!(
        simulation_records(&InputAction::MouseMoveRelative(-3, 4)),
        vec![
            InputRecord { kind: EV_REL, code: REL_X, value: -3 },
            InputRecord { kind: EV_REL, code: REL_Y, value: 4 },
            sync
        ]
    );
    assert_eq!(
        simulation_records(&InputAction::MouseButtonDown(MouseButton::Right)),
        vec![InputRecord { kind: EV_KEY, code: 0x111, value: 1 }, sync]
    );
    assert_eq!(
        simulation_records(&InputAction::MouseButtonUp(MouseButton::Left)),
        vec![InputRecord { kind: EV_KEY, code: 0x110, value: 0 }, sync]
    );
    assert_eq!(
        simulation_records(&InputAction::MouseScroll(9, -1)),
        vec![InputRecord { kind: EV_REL, code: REL_WHEEL, value: -1 }, sync]
    );
    assert_eq!(
        simulation_records(&InputAction::KeyDown(KeyCode::Return)),
        vec![InputRecord { kind: EV_KEY, code: 28, value: 1 }, sync]
    );
    assert_eq!(
        simulation_records(&InputAction::KeyUp(KeyCode::Unicode('a'))),
        vec![InputRecord { kind: EV_KEY, code: 30, value: 0 }, sync]
    );
    assert!(simulation_records(&InputAction::KeyDown(KeyCode::MediaNext)).is_empty());
}

#[test]
fn button_codes_agree_with_evdev_crate() {
    assert_eq!(evdev_code_to_mousebutton(Key::BTN_LEFT.code()), Some(MouseButton::Left));
    assert_eq!(evdev_code_to_mousebutton(Key::BTN_RIGHT.code()), Some(MouseButton::Right));
    assert_eq!(evdev_code_to_mousebutton(Key::BTN_MIDDLE.code()), Some(MouseButton::Middle));
    assert_eq!(evdev_code_to_mousebutton(Key::BTN_SIDE.code()), Some(MouseButton::X1));
    assert_eq!(evdev_code_to_mousebutton(Key::BTN_EXTRA.code()), Some(MouseButton::X2));
    assert_eq!(evdev_code_to_mousebutton(Key::KEY_A.code()), None);
    for b in [MouseButton::Left, MouseButton::Right, MouseButton::Middle, MouseButton::X1, MouseButton::X2] {
        assert_eq!(evdev_code_to_mousebutton(mousebutton_to_evdev_code(&b)), Some(b));
    }
}
