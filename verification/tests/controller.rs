use xbox360bb::{decode_state, ControllerId, ControllerState};

#[test]
fn decodes_button_bits() {
    let state = decode_state(0x19, 0x5c);
    assert_eq!(state.dpad_x, 1);
    assert_eq!(state.dpad_y, -1);
    assert!(state.start);
    assert!(!state.back);
    assert!(state.guide);
    assert!(state.center);
    assert!(state.a);
    assert!(!state.b);
    assert!(state.x);
    assert!(!state.y);
}

#[test]
fn each_bit_stands_for_one_input() {
    let idle = ControllerState::default();
    assert_eq!(decode_state(0x01, 0), ControllerState { dpad_y: -1, ..idle });
    assert_eq!(decode_state(0x02, 0), ControllerState { dpad_y: 1, ..idle });
    assert_eq!(decode_state(0x04, 0), ControllerState { dpad_x: -1, ..idle });
    assert_eq!(decode_state(0x08, 0), ControllerState { dpad_x: 1, ..idle });
    assert_eq!(decode_state(0x10, 0), ControllerState { start: true, ..idle });
    assert_eq!(decode_state(0x20, 0), ControllerState { back: true, ..idle });
    assert_eq!(decode_state(0, 0x04), ControllerState { guide: true, ..idle });
    assert_eq!(decode_state(0, 0x08), ControllerState { center: true, ..idle });
    assert_eq!(decode_state(0, 0x10), ControllerState { a: true, ..idle });
    assert_eq!(decode_state(0, 0x20), ControllerState { b: true, ..idle });
    assert_eq!(decode_state(0, 0x40), ControllerState { x: true, ..idle });
    assert_eq!(decode_state(0, 0x80), ControllerState { y: true, ..idle });
}

#[test]
fn opposite_directions_resolve_to_left_and_up() {
    let state = decode_state(0x0f, 0);
    assert_eq!(state.dpad_x, -1);
    assert_eq!(state.dpad_y, -1);
}

#[test]
fn unused_bits_decode_to_idle() {
    assert!(decode_state(0xc0, 0x03).is_idle());
    assert_eq!(decode_state(0xd0, 0x13), decode_state(0x10, 0x10));
}

#[test]
fn only_the_default_state_is_idle() {
    assert!(ControllerState::default().is_idle());
    assert!(!decode_state(0x01, 0).is_idle());
    assert!(!decode_state(0, 0x80).is_idle());
}

#[test]
fn slots_and_controllers_correspond() {
    for (slot, controller) in ControllerId::ALL.iter().enumerate() {
        assert_eq!(controller.index(), slot);
        assert_eq!(ControllerId::from_index(slot as u8), Some(*controller));
    }
    assert_eq!(ControllerId::from_index(4), None);
    assert_eq!(ControllerId::from_index(255), None);
}
