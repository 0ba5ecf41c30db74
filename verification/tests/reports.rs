use logi_vhid::types::{DeviceIds, KeyboardInput, MouseInput};

#[test]
fn mouse_input_constructors() {
    assert_eq!(MouseInput::new(), MouseInput { button: 0, x: 0, y: 0, wheel: 0, reserved: 0 });
    assert_eq!(
        MouseInput::with_movement(5, -7),
        MouseInput { button: 0, x: 5, y: -7, wheel: 0, reserved: 0 }
    );
    assert_eq!(
        MouseInput::with_button(2),
        MouseInput { button: 2, x: 0, y: 0, wheel: 0, reserved: 0 }
    );
    assert_eq!(
        MouseInput::with_wheel(-3),
        MouseInput { button: 0, x: 0, y: 0, wheel: -3, reserved: 0 }
    );
}

#[test]
fn keyboard_input_constructors() {
    assert_eq!(KeyboardInput::new(), KeyboardInput { modifiers: 0, reserved: 0, keys: [0; 6] });
    assert_eq!(
        KeyboardInput::with_key(4),
        KeyboardInput { modifiers: 0, reserved: 0, keys: [4, 0, 0, 0, 0, 0] }
    );
    assert_eq!(
        KeyboardInput::with_modifiers(3, [4, 5, 0, 0, 0, 0]),
        KeyboardInput { modifiers: 3, reserved: 0, keys: [4, 5, 0, 0, 0, 0] }
    );
    assert_eq!(KeyboardInput::release_all(), KeyboardInput::new());
}

#[test]
fn device_ids_presence() {
    let none = DeviceIds::new();
    assert!(none.is_empty());
    assert!(!none.has_keyboard());
    assert!(!none.has_mouse());
    let keyboard = DeviceIds { keyboard_id: Some(2), mouse_id: None };
    assert!(!keyboard.is_empty());
    assert!(keyboard.has_keyboard());
    assert!(!keyboard.has_mouse());
    let mouse = DeviceIds { keyboard_id: None, mouse_id: Some(0x1F) };
    assert!(!mouse.is_empty());
    assert!(mouse.has_mouse());
}
