use logi_vhid::input::{sort_descending, InputState};
use logi_vhid::types::{KeyboardInput, MouseInput};

#[test]
fn new_state_holds_nothing() {
    let state = InputState::new();
    assert_eq!(state, InputState { buttons: 0, modifiers: 0, keys: [0; 6] });
}

#[test]
fn move_carries_held_buttons() {
    let mut state = InputState::new();
    state.button_down(1);
    assert_eq!(
        state.mouse_move(10, -5),
        MouseInput { button: 1, x: 10, y: -5, wheel: 0, reserved: 0 }
    );
    assert_eq!(state.wheel(-3), MouseInput { button: 1, x: 0, y: 0, wheel: -3, reserved: 0 });
    assert_eq!(state.buttons, 1);
}

#[test]
fn buttons_combine_and_release() {
    let mut state = InputState::new();
    assert_eq!(state.button_down(1), MouseInput::with_button(1));
    assert_eq!(state.button_down(4), MouseInput::with_button(5));
    assert_eq!(state.button_down(4), MouseInput::with_button(5));
    assert_eq!(state.button_up(1), MouseInput::with_button(4));
    assert_eq!(state.button_up(2), MouseInput::with_button(4));
    assert_eq!(state.button_up(4), MouseInput::with_button(0));
    assert_eq!(state.buttons, 0);
}

#[test]
fn high_button_bit_is_carried_as_a_signed_byte() {
    let mut state = InputState::new();
    assert_eq!(state.button_down(0x80), MouseInput::with_button(-128));
    assert_eq!(state.button_down(0x7F), MouseInput::with_button(-1));
}

#[test]
fn click_presses_and_releases() {
    let mut state = InputState::new();
    state.button_down(2);
    let (down, up) = state.click(1);
    assert_eq!(down, MouseInput::with_button(3));
    assert_eq!(up, MouseInput::with_button(2));
    assert_eq!(state.buttons, 2);
}

#[test]
fn modifiers_combine_and_release() {
    let mut state = InputState::new();
    assert_eq!(state.modifier_down(0x01).modifiers, 0x01);
    assert_eq!(state.modifier_down(0x22).modifiers, 0x23);
    assert_eq!(state.modifier_up(0x03).modifiers, 0x20);
    assert_eq!(state.modifier_up(0x20), KeyboardInput::new());
}

#[test]
fn key_takes_first_free_slot() {
    let mut state = InputState::new();
    assert_eq!(state.key_down(4).keys, [4, 0, 0, 0, 0, 0]);
    assert_eq!(state.key_down(9).keys, [4, 9, 0, 0, 0, 0]);
    assert_eq!(state.key_down(5).keys, [4, 9, 5, 0, 0, 0]);
    let mut gap = InputState { buttons: 0, modifiers: 2, keys: [7, 0, 8, 0, 0, 0] };
    assert_eq!(
        gap.key_down(1),
        KeyboardInput { modifiers: 2, reserved: 0, keys: [7, 1, 8, 0, 0, 0] }
    );
}

#[test]
fn key_down_is_idempotent() {
    let mut state = InputState::new();
    state.key_down(4);
    state.key_down(5);
    let before = state;
    let report = state.key_down(4);
    assert_eq!(state, before);
    assert_eq!(report.keys, [4, 5, 0, 0, 0, 0]);
    assert_eq!(state.keys.iter().filter(|k| **k != 0).count(), 2);
}

#[test]
fn key_down_of_zero_changes_nothing() {
    let mut state = InputState::new();
    state.key_down(4);
    assert_eq!(state.key_down(0).keys, [4, 0, 0, 0, 0, 0]);
}

#[test]
fn seventh_key_is_dropped() {
    let mut state = InputState::new();
    for key in [10u8, 11, 12, 13, 14, 15] {
        state.key_down(key);
    }
    assert_eq!(state.keys, [10, 11, 12, 13, 14, 15]);
    let report = state.key_down(16);
    assert_eq!(report.keys, [10, 11, 12, 13, 14, 15]);
    assert_eq!(state.keys, [10, 11, 12, 13, 14, 15]);
    assert_eq!(state.keys.iter().filter(|k| **k != 0).count(), 6);
}

#[test]
fn key_up_frees_the_slot_and_orders_the_rest() {
    let mut state = InputState::new();
    state.key_down(4);
    state.key_down(9);
    state.key_down(5);
    assert_eq!(state.key_up(9).keys, [5, 4, 0, 0, 0, 0]);
    assert_eq!(state.key_up(9).keys, [5, 4, 0, 0, 0, 0]);
    assert_eq!(state.key_up(4).keys, [5, 0, 0, 0, 0, 0]);
    assert_eq!(state.key_up(5).keys, [0; 6]);
}

#[test]
fn key_up_of_absent_key_only_orders() {
    let mut state = InputState { buttons: 3, modifiers: 1, keys: [4, 0, 9, 0, 5, 0] };
    assert_eq!(
        state.key_up(7),
        KeyboardInput { modifiers: 1, reserved: 0, keys: [9, 5, 4, 0, 0, 0] }
    );
    assert_eq!(state.buttons, 3);
}

#[test]
fn key_up_frees_every_slot_that_holds_the_key() {
    let mut state = InputState { buttons: 0, modifiers: 0, keys: [4, 9, 4, 0, 0, 0] };
    assert_eq!(state.key_up(4).keys, [9, 0, 0, 0, 0, 0]);
}

#[test]
fn tap_presses_and_releases() {
    let mut state = InputState::new();
    state.modifier_down(2);
    state.key_down(4);
    let (down, up) = state.tap(6);
    assert_eq!(down, KeyboardInput { modifiers: 2, reserved: 0, keys: [4, 6, 0, 0, 0, 0] });
    assert_eq!(up, KeyboardInput { modifiers: 2, reserved: 0, keys: [4, 0, 0, 0, 0, 0] });
    assert_eq!(state.keys, [4, 0, 0, 0, 0, 0]);
}

#[test]
fn reset_lets_go_of_everything() {
    let mut state = InputState { buttons: 7, modifiers: 0xFF, keys: [1, 2, 3, 4, 5, 6] };
    let (mouse, keyboard) = state.reset();
    assert_eq!(state, InputState::new());
    assert_eq!(mouse, MouseInput::new());
    assert_eq!(keyboard, KeyboardInput::new());
    let mut idle = InputState::new();
    idle.reset();
    assert_eq!(idle, InputState::new());
}

#[test]
fn slots_are_sorted_descending() {
    assert_eq!(sort_descending([0, 3, 0, 9, 1, 9]), [9, 9, 3, 1, 0, 0]);
    assert_eq!(sort_descending([1, 2, 3, 4, 5, 6]), [6, 5, 4, 3, 2, 1]);
    assert_eq!(sort_descending([0; 6]), [0; 6]);
    assert_eq!(sort_descending([255, 0, 255, 0, 255, 0]), [255, 255, 255, 0, 0, 0]);
}
