use logi_vhid::constants::HARDWARE_ID;
use logi_vhid::discovery::{
    classify_instance_id, collect_ids, hardware_id_of, instance_id_of, is_target, note,
    wide_units_of, DeviceDiscovery, WalkAction, WalkPhase,
};
use logi_vhid::status::VHidError;
use logi_vhid::types::{DeviceIds, DeviceType};

fn wide(text: &str) -> Vec<u16> {
    text.encode_utf16().collect()
}

fn wide_buffer(text: &str, len: usize) -> Vec<u16> {
    let mut buffer = wide(text);
    buffer.resize(len, 0);
    buffer
}

fn property(text: &str) -> Vec<u8> {
    let mut bytes = Vec::new();
    for unit in text.encode_utf16() {
        bytes.push((unit & 0xff) as u8);
        bytes.push((unit >> 8) as u8);
    }
    bytes
}

const KEYBOARD: &str = "LGHUBDevice\\VID_046D&PID_C232\\1&abc&02";
const MOUSE: &str = "LGHUBDevice\\VID_046D&PID_C231\\1&abc&1F";

#[test]
fn bytes_pair_up_to_code_units() {
    assert_eq!(wide_units_of(&[0x41, 0x00, 0x34, 0x12]), vec![0x0041, 0x1234]);
    assert_eq!(wide_units_of(&[0xFF, 0xFF, 0x01]), vec![0xFFFF]);
    assert_eq!(wide_units_of(&[]), Vec::<u16>::new());
}

#[test]
fn hardware_id_loses_its_trailing_zeros() {
    assert_eq!(hardware_id_of(&property("root\\LGHUBVirtualBus\0\0")), "root\\LGHUBVirtualBus");
    assert_eq!(hardware_id_of(&property("A\0B\0\0")), "A\0B");
    assert_eq!(hardware_id_of(&property("\0\0")), "");
    assert_eq!(hardware_id_of(&[]), "");
    assert_eq!(hardware_id_of(&[0x00, 0xD8, 0x41, 0x00]), "\u{FFFD}A");
}

#[test]
fn instance_id_ends_at_the_first_zero() {
    assert_eq!(instance_id_of(&wide_buffer(KEYBOARD, 200)), KEYBOARD);
    assert_eq!(instance_id_of(&wide("AB\0CD\0")), "AB");
    assert_eq!(instance_id_of(&wide("\0AB")), "");
    assert_eq!(instance_id_of(&wide("AB")), "AB");
    assert_eq!(instance_id_of(&[]), "");
    assert_eq!(instance_id_of(&[0xD83D, 0xDE00, 0x41, 0]), "\u{1F600}A");
}

#[test]
fn target_is_found_whatever_the_case() {
    assert!(is_target("root\\LGHUBVirtualBus", HARDWARE_ID));
    assert!(is_target("ROOT\\LGHUBVIRTUALBUS", HARDWARE_ID));
    assert!(is_target("x\\Root\\lghubvirtualbus\\y", "ROOT\\LGHubVirtualBus"));
    assert!(is_target("anything", ""));
    assert!(!is_target("root\\LGHUBVirtualBu", HARDWARE_ID));
    assert!(!is_target("", HARDWARE_ID));
    assert!(!is_target("root/LGHUBVirtualBus", HARDWARE_ID));
}

#[test]
fn child_says_what_it_is() {
    assert_eq!(classify_instance_id(KEYBOARD), Some((DeviceType::Keyboard, 2)));
    assert_eq!(classify_instance_id(MOUSE), Some((DeviceType::Mouse, 0x1F)));
    assert_eq!(classify_instance_id(""), None);
    assert_eq!(classify_instance_id("USB\\VID_1234&PID_0001\\5"), None);
    assert_eq!(classify_instance_id("LGHUBDevice\\VID_046D&PID_C232\\1&abc&zz"), None);
}

#[test]
fn noting_keeps_the_other_device() {
    let none = DeviceIds::new();
    let keyboard = note(none, Some((DeviceType::Keyboard, 2)));
    assert_eq!(keyboard, DeviceIds { keyboard_id: Some(2), mouse_id: None });
    let both = note(keyboard, Some((DeviceType::Mouse, 3)));
    assert_eq!(both, DeviceIds { keyboard_id: Some(2), mouse_id: Some(3) });
    assert_eq!(note(both, None), both);
    assert_eq!(
        note(both, Some((DeviceType::Keyboard, 9))),
        DeviceIds { keyboard_id: Some(9), mouse_id: Some(3) }
    );
}

#[test]
fn children_without_match_give_empty_ids() {
    let ids = vec![
        "USB\\VID_1234&PID_0001\\5".to_string(),
        String::new(),
        "LGHUBDevice\\VID_046D&PID_C232\\1&xyz".to_string(),
    ];
    assert_eq!(collect_ids(&ids), DeviceIds::new());
    assert_eq!(collect_ids(&Vec::new()), DeviceIds::new());
}

#[test]
fn children_give_their_ids() {
    let ids = vec![MOUSE.to_string(), "other".to_string(), KEYBOARD.to_string()];
    assert_eq!(collect_ids(&ids), DeviceIds { keyboard_id: Some(2), mouse_id: Some(0x1F) });
    let twice = vec![KEYBOARD.to_string(), "LGHUBDevice\\VID_046D&PID_C232\\1&abc&07".to_string()];
    assert_eq!(collect_ids(&twice), DeviceIds { keyboard_id: Some(7), mouse_id: None });
}

#[test]
fn walk_finds_both_devices() {
    let mut walk = DeviceDiscovery::new(HARDWARE_ID);
    assert_eq!(walk.phase, WalkPhase::Idle);
    assert_eq!(walk.discover_devices(), WalkAction::OpenSnapshot);
    assert_eq!(walk.snapshot_opened(true), WalkAction::ReadDevice(0));
    assert_eq!(walk.device(11, Some(&property("PCI\\VEN_8086\0\0"))), WalkAction::ReadDevice(1));
    assert_eq!(walk.device(12, None), WalkAction::ReadDevice(2));
    assert_eq!(
        walk.device(13, Some(&property("ROOT\\LGHUBVIRTUALBUS\0\0"))),
        WalkAction::CloseSnapshot
    );
    assert_eq!(walk.snapshot_closed(true), WalkAction::FirstChild(13));
    assert_eq!(walk.child(Some(21)), WalkAction::NextSibling(21));
    assert_eq!(walk.child(Some(22)), WalkAction::NextSibling(22));
    assert_eq!(walk.child(Some(23)), WalkAction::NextSibling(23));
    assert_eq!(walk.child(None), WalkAction::ReadInstanceId(21));
    assert_eq!(walk.children, vec![21, 22, 23]);
    assert_eq!(walk.instance_id(Some(&wide_buffer(MOUSE, 200))), WalkAction::ReadInstanceId(22));
    assert_eq!(walk.instance_id(None), WalkAction::ReadInstanceId(23));
    assert_eq!(
        walk.instance_id(Some(&wide_buffer(KEYBOARD, 200))),
        WalkAction::Finished(Ok(DeviceIds { keyboard_id: Some(2), mouse_id: Some(0x1F) }))
    );
    assert_eq!(walk.phase, WalkPhase::Done);
}

#[test]
fn walk_without_matching_children_ends_empty() {
    let mut walk = DeviceDiscovery::new(HARDWARE_ID);
    walk.discover_devices();
    walk.snapshot_opened(true);
    walk.device(5, Some(&property("root\\LGHUBVirtualBus")));
    walk.snapshot_closed(true);
    walk.child(Some(1));
    walk.child(Some(2));
    assert_eq!(walk.child(None), WalkAction::ReadInstanceId(1));
    assert_eq!(
        walk.instance_id(Some(&wide_buffer("USB\\VID_1\\2", 64))),
        WalkAction::ReadInstanceId(2)
    );
    assert_eq!(
        walk.instance_id(Some(&wide_buffer("", 64))),
        WalkAction::Finished(Ok(DeviceIds::new()))
    );
}

#[test]
fn walk_without_bus_node_ends_empty() {
    let mut walk = DeviceDiscovery::new(HARDWARE_ID);
    walk.discover_devices();
    walk.snapshot_opened(true);
    assert_eq!(walk.device(1, Some(&property("ACPI\\PNP0303"))), WalkAction::ReadDevice(1));
    assert_eq!(walk.no_more_devices(), WalkAction::CloseSnapshot);
    assert_eq!(walk.missing(), None);
    assert_eq!(walk.snapshot_closed(true), WalkAction::Finished(Ok(DeviceIds::new())));
    assert_eq!(walk.missing(), Some(VHidError::DeviceNotFound));
    assert_eq!(walk.bus, None);
}

#[test]
fn walk_without_children_ends_empty() {
    let mut walk = DeviceDiscovery::new(HARDWARE_ID);
    walk.discover_devices();
    walk.snapshot_opened(true);
    walk.device(1, Some(&property("root\\lghubvirtualbus")));
    assert_eq!(walk.snapshot_closed(true), WalkAction::FirstChild(1));
    assert_eq!(walk.child(None), WalkAction::Finished(Ok(DeviceIds::new())));
    assert_eq!(walk.missing(), None);
    assert_eq!(walk.bus, Some(1));
}

#[test]
fn walk_stops_at_the_first_bus_node() {
    let mut walk = DeviceDiscovery::new("bus");
    walk.discover_devices();
    walk.snapshot_opened(true);
    assert_eq!(walk.device(7, Some(&property("my BUS one"))), WalkAction::CloseSnapshot);
    assert_eq!(walk.phase, WalkPhase::Closing(Some(7)));
}

#[test]
fn walk_fails_without_snapshot() {
    let mut walk = DeviceDiscovery::new(HARDWARE_ID);
    walk.discover_devices();
    assert_eq!(
        walk.snapshot_opened(false),
        WalkAction::Finished(Err(VHidError::EnumerationFailed))
    );
    assert_eq!(walk.phase, WalkPhase::Done);
    let mut other = DeviceDiscovery::new(HARDWARE_ID);
    other.discover_devices();
    other.snapshot_opened(true);
    other.no_more_devices();
    assert_eq!(
        other.snapshot_closed(false),
        WalkAction::Finished(Err(VHidError::EnumerationFailed))
    );
}

#[test]
fn walk_turns_down_what_it_did_not_ask_for() {
    let mut walk = DeviceDiscovery::new(HARDWARE_ID);
    let turned_down = WalkAction::Finished(Err(VHidError::InvalidParameter));
    assert_eq!(walk.snapshot_opened(true), turned_down);
    assert_eq!(walk.child(Some(1)), turned_down);
    assert_eq!(walk.instance_id(None), turned_down);
    assert_eq!(walk.no_more_devices(), turned_down);
    assert_eq!(walk.snapshot_closed(true), turned_down);
    assert_eq!(walk.device(1, None), turned_down);
    assert_eq!(walk.phase, WalkPhase::Idle);
    walk.discover_devices();
    assert_eq!(walk.discover_devices(), turned_down);
    assert_eq!(walk.phase, WalkPhase::Opening);
}

#[test]
fn walk_can_be_run_again() {
    let mut walk = DeviceDiscovery::new(HARDWARE_ID);
    walk.discover_devices();
    walk.snapshot_opened(true);
    walk.device(1, Some(&property("root\\lghubvirtualbus")));
    walk.snapshot_closed(true);
    walk.child(Some(9));
    walk.child(None);
    assert_eq!(
        walk.instance_id(Some(&wide(KEYBOARD))),
        WalkAction::Finished(Ok(DeviceIds { keyboard_id: Some(2), mouse_id: None }))
    );
    assert_eq!(walk.discover_devices(), WalkAction::OpenSnapshot);
    assert_eq!(walk.children, Vec::<u32>::new());
    assert_eq!(walk.found, DeviceIds::new());
}
