use rayquaza::Gamepad;
use rayquaza::GamepadAxis;
use rayquaza::GamepadButton;
use rayquaza::Key;
use rayquaza::MouseButton;

#[test]
fn test_key_codes() {
    assert_eq!(Key::A.code(), 65);
    assert_eq!(Key::Z.code(), 90);
    assert_eq!(Key::Zero.code(), 48);
    assert_eq!(Key::Space.code(), 32);
    assert_eq!(Key::Escape.code(), 256);
    assert_eq!(Key::F1.code(), 290);
    assert_eq!(Key::F12.code(), 301);
    assert_eq!(Key::KeypadZero.code(), 320);
    assert_eq!(Key::KeypadEqual.code(), 33);
    assert_eq!(Key::Menu.code(), 348);
}

#[test]
fn test_key_from_code_round_trip() {
    let keys = [
        Key::A,
        Key::Space,
        Key::Escape,
        Key::F7,
        Key::KeypadNine,
        Key::Grave,
        Key::RightSuper,
        Key::PageDown,
    ];
    for key in keys {
        assert_eq!(Key::from_code(key.code()), Some(key));
    }
}

#[test]
fn test_key_from_code_unknown() {
    // The foreign poll reports zero when nothing was pressed; unknown
    // codes decode to nothing.
    assert_eq!(Key::from_code(0), None);
    assert_eq!(Key::from_code(-1), None);
    assert_eq!(Key::from_code(9999), None);
}

#[test]
fn test_mouse_button_codes() {
    assert_eq!(MouseButton::Left.code(), 0);
    assert_eq!(MouseButton::Right.code(), 1);
    assert_eq!(MouseButton::Middle.code(), 2);
    assert_eq!(MouseButton::from_code(1), Some(MouseButton::Right));
    assert_eq!(MouseButton::from_code(3), None);
}

#[test]
fn test_gamepad_codes() {
    assert_eq!(Gamepad::One.code(), 0);
    assert_eq!(Gamepad::Four.code(), 3);
    assert_eq!(Gamepad::from_code(2), Some(Gamepad::Three));
    assert_eq!(Gamepad::from_code(4), None);
}

#[test]
fn test_gamepad_axis_codes() {
    assert_eq!(GamepadAxis::LeftX.code(), 0);
    assert_eq!(GamepadAxis::RightTrigger.code(), 5);
    assert_eq!(GamepadAxis::from_code(3), Some(GamepadAxis::RightY));
    assert_eq!(GamepadAxis::from_code(6), None);
}

#[test]
fn test_gamepad_button_codes() {
    // Button codes start at one; the poll reports zero or less when no
    // button is pressed.
    assert_eq!(GamepadButton::LeftFaceUp.code(), 1);
    assert_eq!(GamepadButton::MiddleRightThumb.code(), 17);
    assert_eq!(GamepadButton::from_code(0), None);
    assert_eq!(GamepadButton::from_code(-2), None);
    assert_eq!(GamepadButton::from_code(14), Some(GamepadButton::Middle));
    assert_eq!(GamepadButton::from_code(18), None);
}
