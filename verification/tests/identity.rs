use logi_vhid::identity::{
    classify, is_virtual_keyboard, is_virtual_mouse, make_instance_prefix, make_product_token,
    make_vendor_token, parse_device_id, DeviceIdentity,
};
use logi_vhid::types::DeviceType;

#[test]
fn keyboard_instance_id_is_recognised() {
    let id = "LGHUBDevice\\VID_046D&PID_C232\\1&abc&02";
    assert!(is_virtual_keyboard(id));
    assert!(!is_virtual_mouse(id));
    assert_eq!(classify(id), Some(DeviceType::Keyboard));
    assert_eq!(parse_device_id(id), Some(0x02));
}

#[test]
fn mouse_instance_id_is_recognised() {
    let id = "LGHUBDevice\\VID_046D&PID_C231\\1&abc&1F";
    assert!(is_virtual_mouse(id));
    assert!(!is_virtual_keyboard(id));
    assert_eq!(classify(id), Some(DeviceType::Mouse));
    assert_eq!(parse_device_id(id), Some(0x1F));
}

#[test]
fn instance_id_without_product_token_is_neither() {
    let id = "LGHUBDevice\\VID_046D&PID_C233\\1&abc&02";
    assert!(!is_virtual_keyboard(id));
    assert!(!is_virtual_mouse(id));
    assert_eq!(classify(id), None);
    assert_eq!(classify("USB\\VID_046D\\5&0"), None);
    assert_eq!(classify(""), None);
}

#[test]
fn vendor_token_alone_is_not_enough() {
    assert!(!is_virtual_keyboard("HID\\VID_046D&PID_0001\\7"));
    assert!(!is_virtual_keyboard("HID\\VID_1234&PID_C232\\7"));
    assert!(!is_virtual_mouse("HID\\VID_1234&PID_C231\\7"));
}

#[test]
fn classification_ignores_case() {
    assert!(is_virtual_keyboard("lghubdevice\\vid_046d&pid_c232\\1&abc&02"));
    assert!(is_virtual_mouse("LGHUBDEVICE\\Vid_046d&Pid_c231\\1&ABC&1f"));
    assert_eq!(classify("x\\vid_046d&pid_c231"), Some(DeviceType::Mouse));
}

#[test]
fn classification_follows_unicode_upper_case() {
    assert!(is_virtual_keyboard("V\u{131}D_046D&P\u{131}D_C232"));
}

#[test]
fn keyboard_is_looked_for_first() {
    assert_eq!(classify("VID_046D&PID_C231&PID_C232"), Some(DeviceType::Keyboard));
}

#[test]
fn device_id_is_the_last_part_in_base_sixteen() {
    assert_eq!(parse_device_id("A\\B\\1&2&ff"), Some(0xFF));
    assert_eq!(parse_device_id("A\\B\\FfFfFfFf"), Some(u32::MAX));
    assert_eq!(parse_device_id("7"), Some(7));
    assert_eq!(parse_device_id("a&b\\c&000000000012"), Some(0x12));
    assert_eq!(parse_device_id("x&+1F"), Some(0x1F));
    assert_eq!(parse_device_id("1&2\\3"), Some(3));
}

#[test]
fn device_id_that_is_no_number_is_absent() {
    assert_eq!(parse_device_id(""), None);
    assert_eq!(parse_device_id("A\\B\\"), None);
    assert_eq!(parse_device_id("A\\B\\1&"), None);
    assert_eq!(parse_device_id("A\\B\\1&xyz"), None);
    assert_eq!(parse_device_id("A\\B\\1&-1"), None);
    assert_eq!(parse_device_id("A\\B\\1&+"), None);
    assert_eq!(parse_device_id("A\\B\\1&0x1F"), None);
    assert_eq!(parse_device_id("A\\B\\1& 1"), None);
    assert_eq!(parse_device_id("A\\B\\1&100000000"), None);
    assert_eq!(parse_device_id("A\\B\\1&\u{ff11}"), None);
}

#[test]
fn device_id_agrees_with_the_standard_parser() {
    for text in ["0", "00", "a", "G", "+", "+0", "++1", "-0", "ffffffff", "100000000", "1_0", ""] {
        assert_eq!(parse_device_id(text), u32::from_str_radix(text, 16).ok());
    }
}

#[test]
fn tokens_are_built_from_the_ids() {
    let vendor: String = make_vendor_token(0x046D).into_iter().collect();
    let product: String = make_product_token(0xC232).into_iter().collect();
    let prefix: String = make_instance_prefix(0x046D, 0xC231).into_iter().collect();
    assert_eq!(vendor, "VID_046D");
    assert_eq!(product, "PID_C232");
    assert_eq!(prefix, "LGHUBDevice\\VID_046D&PID_C231");
    let small: String = make_vendor_token(0x000A).into_iter().collect();
    assert_eq!(small, "VID_000A");
    let large: String = make_product_token(0xFFFF).into_iter().collect();
    assert_eq!(large, "PID_FFFF");
}

#[test]
fn identity_of_an_emulated_device() {
    let id = "lghubdevice\\vid_046d&pid_c232\\1&abc&02";
    let identity = DeviceIdentity::parse(id).unwrap();
    assert_eq!(
        identity,
        DeviceIdentity { vendor_id: 0x046D, product_id: 0xC232, raw_instance_id: id.to_string() }
    );
    assert_eq!(identity.device_type(), Some(DeviceType::Keyboard));
    assert_eq!(identity.device_id(), Some(2));
    let mouse = DeviceIdentity::parse("LGHUBDevice\\VID_046D&PID_C231\\1&abc&zz").unwrap();
    assert_eq!(mouse.product_id, 0xC231);
    assert_eq!(mouse.device_type(), Some(DeviceType::Mouse));
    assert_eq!(mouse.device_id(), None);
    assert_eq!(DeviceIdentity::parse("USB\\VID_046D&PID_0001\\1"), None);
}

#[test]
fn identity_of_another_vendor_or_product_is_no_emulated_device() {
    let other = DeviceIdentity { vendor_id: 1, product_id: 0xC232, raw_instance_id: String::new() };
    assert_eq!(other.device_type(), None);
    let unknown =
        DeviceIdentity { vendor_id: 0x046D, product_id: 0xC233, raw_instance_id: String::new() };
    assert_eq!(unknown.device_type(), None);
}
