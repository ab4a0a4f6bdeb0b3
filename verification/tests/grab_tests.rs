use freemouse::capture::{CaptureState, InputAction};
use freemouse::grab::{
    grab_decision, rdev_button_to_mousebutton, rdev_key_to_keycode, CapturedButton, CapturedKey,
    GrabAction, GrabEvent,
};
use freemouse::network::{KeyCode, MouseButton};

#[test]
fn hooked_keys_map_to_protocol_keys() {
    assert_eq!(rdev_key_to_keycode(&CapturedKey::KeyA), Some(KeyCode::A));
    assert_eq!(rdev_key_to_keycode(&CapturedKey::Num0), Some(KeyCode::Num0));
    assert_eq!(rdev_key_to_keycode(&CapturedKey::Equal), Some(KeyCode::Equals));
    assert_eq!(rdev_key_to_keycode(&CapturedKey::Dot), Some(KeyCode::Period));
    assert_eq!(rdev_key_to_keycode(&CapturedKey::IntlBackslash), Some(KeyCode::Backslash));
    assert_eq!(rdev_key_to_keycode(&CapturedKey::KpReturn), Some(KeyCode::NumpadEnter));
    assert_eq!(rdev_key_to_keycode(&CapturedKey::KpDelete), Some(KeyCode::NumpadDecimal));
    assert_eq!(rdev_key_to_keycode(&CapturedKey::NumLock), Some(KeyCode::Other(69)));
    assert_eq!(rdev_key_to_keycode(&CapturedKey::Function), Some(KeyCode::Other(0x74)));
    assert_eq!(rdev_key_to_keycode(&CapturedKey::Unknown(12)), None);
    assert_eq!(rdev_button_to_mousebutton(&CapturedButton::Middle), MouseButton::Middle);
    assert_eq!(rdev_button_to_mousebutton(&CapturedButton::Unknown(8)), MouseButton::Left);
}

#[test]
fn hook_switches_at_edges_and_forwards_while_remote() {
    let mut s = CaptureState::new();
    let key = GrabEvent::KeyPress(CapturedKey::KeyQ);
    assert_eq!(grab_decision(&mut s, &key, false, false), GrabAction::PassThrough);
    assert_eq!(grab_decision(&mut s, &GrabEvent::MouseMove, false, false), GrabAction::PassThrough);
    assert_eq!(grab_decision(&mut s, &GrabEvent::MouseMove, true, false), GrabAction::Swallow);
    assert!(s.is_remote);
    assert_eq!(grab_decision(&mut s, &GrabEvent::MouseMove, false, false), GrabAction::ForwardPointer);
    assert_eq!(
        grab_decision(&mut s, &key, false, false),
        GrabAction::Forward(InputAction::KeyDown(KeyCode::Q))
    );
    assert_eq!(
        grab_decision(&mut s, &GrabEvent::KeyRelease(CapturedKey::KeyQ), false, false),
        GrabAction::Forward(InputAction::KeyUp(KeyCode::Q))
    );
    assert_eq!(
        grab_decision(&mut s, &GrabEvent::KeyPress(CapturedKey::Unknown(3)), false, false),
        GrabAction::Swallow
    );
    assert_eq!(
        grab_decision(&mut s, &GrabEvent::ButtonPress(CapturedButton::Right), false, false),
        GrabAction::Forward(InputAction::MouseButtonDown(MouseButton::Right))
    );
    assert_eq!(
        grab_decision(&mut s, &GrabEvent::ButtonRelease(CapturedButton::Left), false, false),
        GrabAction::Forward(InputAction::MouseButtonUp(MouseButton::Left))
    );
    assert_eq!(
        grab_decision(&mut s, &GrabEvent::Wheel(0, -2), false, false),
        GrabAction::Forward(InputAction::MouseScroll(0, -2))
    );
    assert_eq!(grab_decision(&mut s, &GrabEvent::MouseMove, false, true), GrabAction::Swallow);
    assert!(!s.is_remote);
}

#[test]
fn stopped_hook_passes_everything() {
    let mut s = CaptureState { is_remote: true, stopped: true };
    assert_eq!(grab_decision(&mut s, &GrabEvent::MouseMove, false, true), GrabAction::PassThrough);
    assert_eq!(
        grab_decision(&mut s, &GrabEvent::KeyPress(CapturedKey::KeyA), false, false),
        GrabAction::PassThrough
    );
    assert!(s.is_remote && s.stopped);
}
