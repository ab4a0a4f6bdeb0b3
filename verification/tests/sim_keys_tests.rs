use freemouse::capture::key_for_char;
use freemouse::network::{KeyCode, MouseButton};
use freemouse::sim_keys::{keycode_to_sim_key, mousebutton_to_sim_button, SimKey};

#[test]
fn characters_and_numpad_are_typed_as_text() {
    assert_eq!(keycode_to_sim_key(&KeyCode::A), Some(SimKey::Unicode('a')));
    assert_eq!(keycode_to_sim_key(&KeyCode::Z), Some(SimKey::Unicode('z')));
    assert_eq!(keycode_to_sim_key(&KeyCode::Num7), Some(SimKey::Unicode('7')));
    assert_eq!(keycode_to_sim_key(&KeyCode::Backslash), Some(SimKey::Unicode('\\')));
    assert_eq!(keycode_to_sim_key(&KeyCode::Quote), Some(SimKey::Unicode('\'')));
    assert_eq!(keycode_to_sim_key(&KeyCode::Numpad3), Some(SimKey::Unicode('3')));
    assert_eq!(keycode_to_sim_key(&KeyCode::NumpadMultiply), Some(SimKey::Unicode('*')));
    assert_eq!(keycode_to_sim_key(&KeyCode::Unicode('é')), Some(SimKey::Unicode('é')));
}

#[test]
fn named_keys_and_aliases() {
    assert_eq!(keycode_to_sim_key(&KeyCode::Option), Some(SimKey::Alt));
    assert_eq!(keycode_to_sim_key(&KeyCode::AltGr), Some(SimKey::Alt));
    assert_eq!(keycode_to_sim_key(&KeyCode::ControlRight), Some(SimKey::Control));
    assert_eq!(keycode_to_sim_key(&KeyCode::Super), Some(SimKey::Meta));
    assert_eq!(keycode_to_sim_key(&KeyCode::NumpadEnter), Some(SimKey::Return));
    assert_eq!(keycode_to_sim_key(&KeyCode::F24), Some(SimKey::F24));
    assert_eq!(keycode_to_sim_key(&KeyCode::MediaPrev), Some(SimKey::MediaPrevTrack));
    assert_eq!(keycode_to_sim_key(&KeyCode::PrintScreen), Some(SimKey::Print));
    assert_eq!(keycode_to_sim_key(&KeyCode::ScrollLock), Some(SimKey::Other(71)));
    assert_eq!(keycode_to_sim_key(&KeyCode::Menu), Some(SimKey::LMenu));
    assert_eq!(keycode_to_sim_key(&KeyCode::Other(9)), Some(SimKey::Other(9)));
}

#[test]
fn typed_characters_come_out_as_themselves() {
    for c in ('a'..='z').chain('A'..='Z').chain('0'..='9') {
        let key = key_for_char(c).unwrap();
        assert_eq!(keycode_to_sim_key(&key), Some(SimKey::Unicode(c.to_ascii_lowercase())));
    }
}

#[test]
fn extra_buttons_press_left() {
    assert_eq!(mousebutton_to_sim_button(&MouseButton::Left), MouseButton::Left);
    assert_eq!(mousebutton_to_sim_button(&MouseButton::Right), MouseButton::Right);
    assert_eq!(mousebutton_to_sim_button(&MouseButton::Middle), MouseButton::Middle);
    assert_eq!(mousebutton_to_sim_button(&MouseButton::X1), MouseButton::Left);
    assert_eq!(mousebutton_to_sim_button(&MouseButton::X2), MouseButton::Left);
}
