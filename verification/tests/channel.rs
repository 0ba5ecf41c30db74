use logi_vhid::channel::{
    bus_open_request, create_result, handle_is_invalid, input_open_request, transaction_result,
    BusChannel, Transaction,
};
use logi_vhid::constants::BUS_DEVICE_PATH;
use logi_vhid::status::VHidError;
use logi_vhid::types::DeviceType;

#[test]
fn zero_and_minus_one_are_no_handles() {
    assert!(handle_is_invalid(0));
    assert!(handle_is_invalid(-1));
    assert!(!handle_is_invalid(1));
    assert!(!handle_is_invalid(-2));
    assert!(!handle_is_invalid(isize::MAX));
}

#[test]
fn bus_is_opened_shared_and_overlapped() {
    let request = bus_open_request();
    assert_eq!(request.path, BUS_DEVICE_PATH);
    assert_eq!(
        request.path,
        "\\\\?\\root#system#0001#{dfbedcdb-2148-416d-9e4d-cecc2424128c}"
    );
    assert!(request.read && request.write);
    assert!(request.share_read && request.share_write);
    assert!(request.overlapped);
}

#[test]
fn input_device_has_three_paths() {
    let paths: Vec<&str> = (0..5).filter_map(|i| input_open_request(i).map(|r| r.path)).collect();
    assert_eq!(
        paths,
        vec![
            "\\\\.\\ROOT#SYSTEM#0001#{1abc05c0-c378-41b9-9cef-df1aba82b015}",
            "\\\\.\\ROOT#SYSTEM#0002#{1abc05c0-c378-41b9-9cef-df1aba82b015}",
            "\\\\.\\ROOT#SYSTEM#0003#{1abc05c0-c378-41b9-9cef-df1aba82b015}",
        ]
    );
    let first = input_open_request(0).unwrap();
    assert!(first.write && !first.read && !first.overlapped);
    assert_eq!(input_open_request(3), None);
    assert_eq!(input_open_request(usize::MAX), None);
}

#[test]
fn channel_takes_a_handle_once() {
    let mut channel = BusChannel::closed();
    assert!(!channel.is_open());
    assert!(!channel.attach(-1));
    assert!(!channel.attach(0));
    assert!(!channel.is_open());
    assert!(channel.attach(42));
    assert!(channel.is_open());
    assert_eq!(channel.current(), Some(42));
    assert!(!channel.attach(43));
    assert_eq!(channel.current(), Some(42));
}

#[test]
fn close_hands_the_handle_out_once() {
    let mut channel = BusChannel::closed();
    assert_eq!(channel.close(), None);
    channel.attach(42);
    assert_eq!(channel.close(), Some(42));
    assert!(!channel.is_open());
    assert_eq!(channel.close(), None);
    let mut broken = BusChannel { handle: Some(-1) };
    assert!(!broken.is_open());
    assert_eq!(broken.close(), None);
    assert_eq!(broken, BusChannel::closed());
}

#[test]
fn closed_channel_sends_nothing() {
    let channel = BusChannel::closed();
    assert_eq!(channel.send_create(DeviceType::Keyboard), Err(VHidError::NotInitialized));
    assert_eq!(channel.send_destroy(1, DeviceType::Mouse), Err(VHidError::NotInitialized));
    assert_eq!(channel.send_report(7, vec![1]), Err(VHidError::NotInitialized));
}

#[test]
fn raw_report_is_written_under_its_code() {
    let mut channel = BusChannel::closed();
    channel.attach(9);
    assert_eq!(
        channel.send_report(0x2A2010, vec![1, 2, 3]),
        Ok(Transaction { handle: 9, control_code: 0x2A2010, input: vec![1, 2, 3], output_len: 0 })
    );
}

#[test]
fn creation_ends_in_an_id_or_an_error() {
    assert_eq!(create_result(Ok(vec![0, 0, 0, 0, 7, 0, 0, 0])), Ok(7));
    assert_eq!(create_result(Ok(vec![0; 7])), Err(VHidError::ProtocolViolation));
    assert_eq!(
        create_result(Err("[WinError 2] not found".to_string())),
        Err(VHidError::ChannelError("[WinError 2] not found".to_string()))
    );
}

#[test]
fn failed_transaction_keeps_the_text() {
    assert_eq!(transaction_result(Ok(())), Ok(()));
    assert_eq!(
        transaction_result(Err("text \u{6253}".to_string())),
        Err(VHidError::ChannelError("text \u{6253}".to_string()))
    );
}
