use logi_vhid::channel::{BusChannel, Transaction};
use logi_vhid::codec::{encode_create_request, encode_destroy_request};
use logi_vhid::constants::{
    IOCTL_BUS_CREATE_DEVICE, IOCTL_BUS_DESTROY_DEVICE, IOCTL_MOVE_MOUSE, IOCTL_SEND_KEYBOARD,
};
use logi_vhid::input::InputState;
use logi_vhid::manager::{
    reset_result, Action, DeviceHandleManager, Phase, HOLD_DELAY_MS, SETTLE_DELAY_MS,
};
use logi_vhid::status::{VHidError, VHidResult};
use logi_vhid::types::{DeviceIds, DeviceType, KeyboardInput, MouseInput};

fn opened() -> DeviceHandleManager {
    let mut manager = DeviceHandleManager::new();
    assert!(manager.bus.attach(0x10));
    assert!(manager.device.attach(0x20));
    manager
}

fn response(id: u32) -> Vec<u8> {
    let mut bytes = vec![0u8; 246];
    bytes[4..8].copy_from_slice(&id.to_le_bytes());
    bytes
}

#[test]
fn new_manager_is_not_initialized() {
    let manager = DeviceHandleManager::new();
    assert!(!manager.is_initialized());
    assert_eq!(manager.ids, DeviceIds::new());
    assert_eq!(manager.input, InputState::new());
    assert_eq!(manager.phase, Phase::Idle);
    assert_eq!(manager.last_error, None);
    assert!(opened().is_initialized());
}

#[test]
fn activation_creates_both_devices_and_deactivation_destroys_them() {
    let mut manager = opened();
    assert_eq!(manager.activate(), Action::Discover);
    assert_eq!(manager.discovered(Ok(DeviceIds::new())), Action::Create(DeviceType::Keyboard));
    assert_eq!(
        manager.bus.send_create(DeviceType::Keyboard),
        Ok(Transaction {
            handle: 0x10,
            control_code: IOCTL_BUS_CREATE_DEVICE,
            input: encode_create_request(DeviceType::Keyboard),
            output_len: 246,
        })
    );
    assert_eq!(manager.created(Ok(response(1))), Action::Create(DeviceType::Mouse));
    assert_eq!(
        manager.bus.send_create(DeviceType::Mouse),
        Ok(Transaction {
            handle: 0x10,
            control_code: IOCTL_BUS_CREATE_DEVICE,
            input: encode_create_request(DeviceType::Mouse),
            output_len: 254,
        })
    );
    assert_eq!(manager.created(Ok(response(2))), Action::Settle(SETTLE_DELAY_MS));
    assert_eq!(manager.created, DeviceIds { keyboard_id: Some(1), mouse_id: Some(2) });
    assert!(manager.ids.is_empty());
    assert_eq!(manager.settled(), Action::Discover);
    let found = DeviceIds { keyboard_id: Some(0x02), mouse_id: Some(0x1F) };
    assert_eq!(manager.discovered(Ok(found)), Action::Done(VHidResult::Success));
    assert_eq!(manager.ids, found);
    assert!(!manager.ids.is_empty());
    assert_eq!(manager.phase, Phase::Idle);

    assert_eq!(manager.deactivate(), Action::Destroy(0x02, DeviceType::Keyboard));
    assert_eq!(
        manager.bus.send_destroy(0x02, DeviceType::Keyboard),
        Ok(Transaction {
            handle: 0x10,
            control_code: IOCTL_BUS_DESTROY_DEVICE,
            input: encode_destroy_request(0x02, DeviceType::Keyboard),
            output_len: 0,
        })
    );
    assert_eq!(manager.destroyed(Ok(())), Action::Destroy(0x1F, DeviceType::Mouse));
    assert_eq!(manager.destroyed(Ok(())), Action::Done(VHidResult::Success));
    assert!(manager.ids.is_empty());
    assert_eq!(manager.phase, Phase::Idle);
}

#[test]
fn activation_adopts_devices_that_exist() {
    let mut manager = opened();
    assert_eq!(manager.activate(), Action::Discover);
    let found = DeviceIds { keyboard_id: Some(5), mouse_id: None };
    assert_eq!(manager.discovered(Ok(found)), Action::Done(VHidResult::Success));
    assert_eq!(manager.ids, found);
    assert_eq!(manager.activate(), Action::Done(VHidResult::Success));
    assert_eq!(manager.phase, Phase::Idle);
}

#[test]
fn activation_tolerates_failed_creations() {
    let mut manager = opened();
    manager.activate();
    manager.discovered(Ok(DeviceIds::new()));
    assert_eq!(
        manager.created(Err("access denied".to_string())),
        Action::Create(DeviceType::Mouse)
    );
    assert_eq!(
        manager.last_error,
        Some(VHidError::ChannelError("access denied".to_string()))
    );
    assert_eq!(manager.created(Ok(vec![0, 0, 0])), Action::Settle(SETTLE_DELAY_MS));
    assert_eq!(manager.last_error, Some(VHidError::ProtocolViolation));
    assert_eq!(manager.created, DeviceIds::new());
    assert_eq!(manager.settled(), Action::Discover);
    assert_eq!(manager.discovered(Ok(DeviceIds::new())), Action::Done(VHidResult::Success));
    assert!(manager.ids.is_empty());
}

#[test]
fn activation_fails_with_the_walk() {
    let mut manager = opened();
    manager.activate();
    assert_eq!(
        manager.discovered(Err(VHidError::EnumerationFailed)),
        Action::Done(VHidResult::Error)
    );
    assert_eq!(manager.last_error, Some(VHidError::EnumerationFailed));
    assert_eq!(manager.phase, Phase::Idle);
    assert!(manager.ids.is_empty());
}

#[test]
fn deactivation_without_devices_does_nothing() {
    let mut manager = opened();
    assert_eq!(manager.deactivate(), Action::Done(VHidResult::Success));
    assert_eq!(manager.phase, Phase::Idle);
    let mut closed = DeviceHandleManager::new();
    assert_eq!(closed.deactivate(), Action::Done(VHidResult::Success));
    assert_eq!(closed, DeviceHandleManager::new());
}

#[test]
fn deactivation_forgets_devices_even_when_destruction_fails() {
    let mut manager = opened();
    manager.ids = DeviceIds { keyboard_id: Some(1), mouse_id: Some(2) };
    assert_eq!(manager.deactivate(), Action::Destroy(1, DeviceType::Keyboard));
    assert_eq!(
        manager.destroyed(Err("[WinError 5] denied".to_string())),
        Action::Destroy(2, DeviceType::Mouse)
    );
    assert_eq!(manager.destroyed(Ok(())), Action::Done(VHidResult::Error));
    assert!(manager.ids.is_empty());
    assert_eq!(
        manager.last_error,
        Some(VHidError::ChannelError("[WinError 5] denied".to_string()))
    );
    assert!(!manager.failed);
}

#[test]
fn deactivation_of_a_single_device() {
    let mut manager = opened();
    manager.ids = DeviceIds { keyboard_id: None, mouse_id: Some(2) };
    assert_eq!(manager.deactivate(), Action::Destroy(2, DeviceType::Mouse));
    assert_eq!(manager.destroyed(Ok(())), Action::Done(VHidResult::Success));
    assert!(manager.ids.is_empty());
    manager.ids = DeviceIds { keyboard_id: Some(3), mouse_id: None };
    assert_eq!(manager.deactivate(), Action::Destroy(3, DeviceType::Keyboard));
    assert_eq!(
        manager.destroyed(Err("gone".to_string())),
        Action::Done(VHidResult::Error)
    );
    assert!(manager.ids.is_empty());
}

#[test]
fn lifecycle_needs_the_bus_channel() {
    let mut manager = DeviceHandleManager::new();
    assert_eq!(manager.activate(), Action::Done(VHidResult::NotInitialized));
    manager.ids = DeviceIds { keyboard_id: Some(1), mouse_id: None };
    assert_eq!(manager.deactivate(), Action::Done(VHidResult::NotInitialized));
    assert_eq!(manager.ids, DeviceIds { keyboard_id: Some(1), mouse_id: None });
    assert_eq!(manager.activate(), Action::Done(VHidResult::Success));
}

#[test]
fn answers_out_of_turn_are_turned_down() {
    let mut manager = opened();
    let turned_down = Action::Done(VHidResult::InvalidParameter);
    assert_eq!(manager.settled(), turned_down);
    assert_eq!(manager.discovered(Ok(DeviceIds::new())), turned_down);
    assert_eq!(manager.created(Ok(response(1))), turned_down);
    assert_eq!(manager.destroyed(Ok(())), turned_down);
    assert_eq!(manager, opened());
    manager.activate();
    assert_eq!(manager.activate(), turned_down);
    assert_eq!(manager.deactivate(), turned_down);
    assert_eq!(manager.phase, Phase::Discovering);
}

#[test]
fn shutdown_releases_each_handle_once() {
    let mut manager = opened();
    assert_eq!(manager.shutdown(), (Some(0x20), Some(0x10)));
    assert!(!manager.is_initialized());
    assert_eq!(manager.shutdown(), (None, None));
}

#[test]
fn reports_need_the_device_channel() {
    let mut manager = DeviceHandleManager::new();
    manager.bus.attach(0x10);
    assert_eq!(manager.mouse_move(1, 2), Err(VHidError::NotInitialized));
    assert_eq!(manager.mouse_wheel(1), Err(VHidError::NotInitialized));
    assert_eq!(manager.mouse_down(1), Err(VHidError::NotInitialized));
    assert_eq!(manager.mouse_up(1), Err(VHidError::NotInitialized));
    assert_eq!(manager.key_down(4), Err(VHidError::NotInitialized));
    assert_eq!(manager.key_up(4), Err(VHidError::NotInitialized));
    assert_eq!(manager.modifier_down(1), Err(VHidError::NotInitialized));
    assert_eq!(manager.modifier_up(1), Err(VHidError::NotInitialized));
    assert_eq!(manager.reset_state(), Err(VHidError::NotInitialized));
    assert_eq!(manager.input, InputState::new());
}

#[test]
fn absent_report_is_an_invalid_parameter() {
    let manager = opened();
    assert_eq!(manager.send_mouse_report(None), Err(VHidError::InvalidParameter));
    assert_eq!(manager.send_keyboard_report(None), Err(VHidError::InvalidParameter));
    let closed = DeviceHandleManager::new();
    assert_eq!(closed.send_mouse_report(None), Err(VHidError::InvalidParameter));
    assert_eq!(
        closed.send_mouse_report(Some(&MouseInput::new())),
        Err(VHidError::NotInitialized)
    );
    assert_eq!(
        closed.send_keyboard_report(Some(&KeyboardInput::new())),
        Err(VHidError::NotInitialized)
    );
}

#[test]
fn whole_reports_are_written_as_they_are() {
    let manager = opened();
    let mouse = MouseInput { button: 1, x: 10, y: 0, wheel: 0, reserved: 0 };
    assert_eq!(
        manager.send_mouse_report(Some(&mouse)),
        Ok(Transaction {
            handle: 0x20,
            control_code: IOCTL_MOVE_MOUSE,
            input: vec![1, 10, 0, 0, 0],
            output_len: 0,
        })
    );
    let keyboard = KeyboardInput { modifiers: 2, reserved: 0, keys: [4, 5, 0, 0, 0, 0] };
    assert_eq!(
        manager.send_keyboard_report(Some(&keyboard)),
        Ok(Transaction {
            handle: 0x20,
            control_code: IOCTL_SEND_KEYBOARD,
            input: vec![2, 0, 4, 5, 0, 0, 0, 0],
            output_len: 0,
        })
    );
    assert_eq!(manager.input, InputState::new());
}

fn mouse_write(input: Vec<u8>) -> Result<Transaction, VHidError> {
    Ok(Transaction { handle: 0x20, control_code: IOCTL_MOVE_MOUSE, input, output_len: 0 })
}

fn keyboard_write(input: Vec<u8>) -> Result<Transaction, VHidError> {
    Ok(Transaction { handle: 0x20, control_code: IOCTL_SEND_KEYBOARD, input, output_len: 0 })
}

#[test]
fn mouse_entry_points_track_the_buttons() {
    let mut manager = opened();
    assert_eq!(manager.mouse_down(1), mouse_write(vec![1, 0, 0, 0, 0]));
    assert_eq!(manager.mouse_down(2), mouse_write(vec![3, 0, 0, 0, 0]));
    assert_eq!(manager.mouse_move(-5, 7), mouse_write(vec![3, 0xFB, 7, 0, 0]));
    assert_eq!(manager.mouse_wheel(-1), mouse_write(vec![3, 0, 0, 0xFF, 0]));
    assert_eq!(manager.mouse_up(1), mouse_write(vec![2, 0, 0, 0, 0]));
    assert_eq!(manager.mouse_up(-1), mouse_write(vec![0, 0, 0, 0, 0]));
    assert_eq!(manager.input.buttons, 0);
}

#[test]
fn keyboard_entry_points_track_keys_and_modifiers() {
    let mut manager = opened();
    assert_eq!(manager.modifier_down(0x02), keyboard_write(vec![2, 0, 0, 0, 0, 0, 0, 0]));
    assert_eq!(manager.key_down(4), keyboard_write(vec![2, 0, 4, 0, 0, 0, 0, 0]));
    assert_eq!(manager.key_down(5), keyboard_write(vec![2, 0, 4, 5, 0, 0, 0, 0]));
    assert_eq!(manager.key_down(4), keyboard_write(vec![2, 0, 4, 5, 0, 0, 0, 0]));
    assert_eq!(manager.key_up(4), keyboard_write(vec![2, 0, 5, 0, 0, 0, 0, 0]));
    assert_eq!(manager.modifier_up(0x02), keyboard_write(vec![0, 0, 5, 0, 0, 0, 0, 0]));
    assert_eq!(manager.input.keys, [5, 0, 0, 0, 0, 0]);
}

#[test]
fn reset_writes_two_reports_of_zeros() {
    let mut manager = opened();
    manager.mouse_down(3).unwrap();
    manager.key_down(9).unwrap();
    manager.modifier_down(1).unwrap();
    let (mouse, keyboard) = manager.reset_state().unwrap();
    assert_eq!(Ok(mouse), mouse_write(vec![0; 5]));
    assert_eq!(Ok(keyboard), keyboard_write(vec![0; 8]));
    assert_eq!(manager.input, InputState::new());
}

#[test]
fn reset_status_follows_the_keyboard() {
    assert_eq!(reset_result(true, true), VHidResult::Success);
    assert_eq!(reset_result(false, true), VHidResult::Success);
    assert_eq!(reset_result(true, false), VHidResult::Error);
    assert_eq!(reset_result(false, false), VHidResult::Error);
}

#[test]
fn delays_are_fixed() {
    assert_eq!(HOLD_DELAY_MS, 20);
    assert_eq!(SETTLE_DELAY_MS, 1000);
}

#[test]
fn closed_bus_channel_ends_an_activation() {
    let mut manager = opened();
    manager.activate();
    manager.bus = BusChannel::closed();
    assert_eq!(
        manager.discovered(Ok(DeviceIds::new())),
        Action::Done(VHidResult::NotInitialized)
    );
    assert_eq!(manager.phase, Phase::Idle);
}
