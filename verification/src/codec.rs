//! The packets of the bus: the request that creates a device, the request
//! that destroys one, the response to a creation, and the two input reports.

use crate::constants::VENDOR_ID_LOGITECH;
use crate::identity::{instance_prefix, make_instance_prefix};
use crate::status::VHidError;
use crate::text::{encode_utf16, lemma_utf16_units_of_bmp, utf16_units};
use crate::types::{DeviceType, KeyboardInput, MouseInput};
use crate::wire::{
    byte_of, le_bytes, le_value, read_u32, signed_of, to_byte, to_signed, wide_field,
    write_bytes, write_u32, write_wide,
};
use vstd::prelude::*;

verus! {

/// Length of the request that creates a keyboard.
pub const KEYBOARD_REQUEST_LEN: usize = 246;

/// Length of the request that creates a mouse.
pub const MOUSE_REQUEST_LEN: usize = 254;

/// Length of the request that destroys a device.
pub const DESTROY_REQUEST_LEN: usize = 20;

/// Least length of a response to a creation.
pub const CREATE_RESPONSE_MIN_LEN: usize = 8;

/// Length of a mouse report.
pub const MOUSE_REPORT_LEN: usize = 5;

/// Length of a keyboard report.
pub const KEYBOARD_REPORT_LEN: usize = 8;

/// The tag of a create request, at offset 8.
pub const CREATE_REQUEST_TAG: u32 = 1;

/// The fixed sub-length of a create request, at offset 12.
pub const CREATE_REQUEST_SUBLENGTH: u32 = 62;

/// Where the instance-id prefix stands in a create request.
pub const PREFIX_OFFSET: usize = 16;

/// How many bytes a create request has for the instance-id prefix.
pub const PREFIX_CAPACITY: usize = 128;

/// Where the magic constant stands in a create request.
pub const MAGIC_OFFSET: usize = 144;

/// Where the device-type flag stands in a create request.
pub const FLAG_OFFSET: usize = 148;

/// Where the length of the report descriptor stands in a create request.
pub const DESCRIPTOR_LEN_OFFSET: usize = 178;

/// Where the report descriptor stands in a create request.
pub const DESCRIPTOR_OFFSET: usize = 182;

/// The constant that marks a keyboard for the bus driver. Its meaning is the
/// driver's own.
pub const KEYBOARD_MAGIC: u32 = 0x3DCDFB93;

/// The constant that marks a mouse for the bus driver. Its meaning is the
/// driver's own.
pub const MOUSE_MAGIC: u32 = 0x3DCEFB93;

/// The HID report descriptor of the keyboard: eight modifier bits, a reserved
/// byte, five indicator bits and six key codes.
pub const KEYBOARD_REPORT_DESCRIPTOR: [u8; 63] = [
    0x05, 0x01, 0x09, 0x06, 0xA1, 0x01, 0x05, 0x07, 0x19, 0xE0, 0x29, 0xE7, 0x15, 0x00,
    0x25, 0x01, 0x75, 0x01, 0x95, 0x08, 0x81, 0x02, 0x95, 0x01, 0x75, 0x08, 0x81, 0x01,
    0x95, 0x05, 0x75, 0x01, 0x05, 0x08, 0x19, 0x01, 0x29, 0x05, 0x91, 0x02, 0x95, 0x01,
    0x75, 0x03, 0x91, 0x01, 0x95, 0x06, 0x75, 0x08, 0x15, 0x00, 0x25, 0x65, 0x05, 0x07,
    0x19, 0x00, 0x29, 0x65, 0x81, 0x00, 0xC0,
];

/// The HID report descriptor of the mouse: five button bits, three bits of
/// padding and three signed bytes for x, y and the wheel.
pub const MOUSE_REPORT_DESCRIPTOR: [u8; 52] = [
    0x05, 0x01, 0x09, 0x02, 0xA1, 0x01, 0x09, 0x01, 0xA1, 0x00, 0x05, 0x09, 0x19, 0x01,
    0x29, 0x05, 0x15, 0x00, 0x25, 0x01, 0x95, 0x05, 0x75, 0x01, 0x81, 0x02, 0x95, 0x01,
    0x75, 0x03, 0x81, 0x01, 0x05, 0x01, 0x09, 0x30, 0x09, 0x31, 0x09, 0x38, 0x15, 0x81,
    0x25, 0x7F, 0x75, 0x08, 0x95, 0x03, 0x81, 0x06, 0xC0, 0xC0,
];

/// The length of the request that creates a device of this type.
pub open spec fn request_len(device_type: DeviceType) -> nat {
    match device_type {
        DeviceType::Keyboard => KEYBOARD_REQUEST_LEN as nat,
        DeviceType::Mouse => MOUSE_REQUEST_LEN as nat,
    }
}

/// The constant that marks this type of device for the bus driver.
pub open spec fn magic(device_type: DeviceType) -> u32 {
    match device_type {
        DeviceType::Keyboard => KEYBOARD_MAGIC,
        DeviceType::Mouse => MOUSE_MAGIC,
    }
}

/// The HID report descriptor of this type of device.
pub open spec fn report_descriptor(device_type: DeviceType) -> Seq<u8> {
    match device_type {
        DeviceType::Keyboard => KEYBOARD_REPORT_DESCRIPTOR@,
        DeviceType::Mouse => MOUSE_REPORT_DESCRIPTOR@,
    }
}

/// The instance-id prefix of this type of device, as the bytes of its field.
pub open spec fn prefix_field(device_type: DeviceType) -> Seq<u8> {
    wide_field(
        utf16_units(instance_prefix(VENDOR_ID_LOGITECH, device_type.spec_product_id())),
        PREFIX_CAPACITY as nat,
    )
}

/// Byte `i` of the request that creates a device of this type.
pub open spec fn create_request_byte(device_type: DeviceType, i: int) -> u8 {
    let descriptor = report_descriptor(device_type);
    if 0 <= i < 4 {
        le_bytes(request_len(device_type) as u32)[i]
    } else if 8 <= i < 12 {
        le_bytes(CREATE_REQUEST_TAG)[i - 8]
    } else if 12 <= i < 16 {
        le_bytes(CREATE_REQUEST_SUBLENGTH)[i - 12]
    } else if PREFIX_OFFSET <= i < PREFIX_OFFSET + PREFIX_CAPACITY {
        prefix_field(device_type)[i - PREFIX_OFFSET]
    } else if MAGIC_OFFSET <= i < MAGIC_OFFSET + 4 {
        le_bytes(magic(device_type))[i - MAGIC_OFFSET]
    } else if FLAG_OFFSET <= i < FLAG_OFFSET + 4 {
        le_bytes(device_type.spec_flag())[i - FLAG_OFFSET]
    } else if DESCRIPTOR_LEN_OFFSET <= i < DESCRIPTOR_LEN_OFFSET + 4 {
        le_bytes(descriptor.len() as u32)[i - DESCRIPTOR_LEN_OFFSET]
    } else if DESCRIPTOR_OFFSET <= i < DESCRIPTOR_OFFSET + descriptor.len() {
        descriptor[i - DESCRIPTOR_OFFSET]
    } else {
        0
    }
}

/// The request that creates a device of this type.
pub open spec fn create_request(device_type: DeviceType) -> Seq<u8> {
    Seq::new(request_len(device_type), |i: int| create_request_byte(device_type, i))
}

/// The request that destroys the device `device_id` of this type: its own
/// length, the id, the device-type flag and eight bytes of zero.
pub open spec fn destroy_request(device_id: u32, device_type: DeviceType) -> Seq<u8> {
    le_bytes(DESTROY_REQUEST_LEN as u32) + le_bytes(device_id) + le_bytes(device_type.spec_flag())
        + Seq::new(8, |i: int| 0u8)
}

/// The device id in a response to a creation, where the response is long
/// enough to hold one.
pub open spec fn created_id(response: Seq<u8>) -> Option<u32> {
    if response.len() < CREATE_RESPONSE_MIN_LEN {
        None
    } else {
        Some(le_value(response.subrange(4, 8)) as u32)
    }
}

/// The five bytes of a mouse report.
pub open spec fn mouse_report(report: MouseInput) -> Seq<u8> {
    seq![
        byte_of(report.button),
        byte_of(report.x),
        byte_of(report.y),
        byte_of(report.wheel),
        byte_of(report.reserved),
    ]
}

/// The eight bytes of a keyboard report.
pub open spec fn keyboard_report(report: KeyboardInput) -> Seq<u8> {
    seq![report.modifiers, report.reserved] + report.keys@
}

/// The mouse report that five bytes spell; other numbers of bytes spell none.
pub open spec fn read_mouse_report(bytes: Seq<u8>) -> Option<MouseInput> {
    if bytes.len() == MOUSE_REPORT_LEN {
        Some(
            MouseInput {
                button: signed_of(bytes[0]),
                x: signed_of(bytes[1]),
                y: signed_of(bytes[2]),
                wheel: signed_of(bytes[3]),
                reserved: signed_of(bytes[4]),
            },
        )
    } else {
        None
    }
}

/// The keyboard report that eight bytes spell; other numbers of bytes spell
/// none.
pub open spec fn read_keyboard_report(bytes: Seq<u8>) -> Option<KeyboardInput> {
    if bytes.len() == KEYBOARD_REPORT_LEN {
        Some(
            KeyboardInput {
                modifiers: bytes[0],
                reserved: bytes[1],
                keys: [bytes[2], bytes[3], bytes[4], bytes[5], bytes[6], bytes[7]],
            },
        )
    } else {
        None
    }
}

/// The length that a create request declares at its start is its length, 246
/// for a keyboard and 254 for a mouse.
pub proof fn lemma_create_request_length(device_type: DeviceType)
    ensures
        create_request(device_type).len() == le_value(create_request(device_type).subrange(0, 4)),
        create_request(device_type).len() == (match device_type {
            DeviceType::Keyboard => 246nat,
            DeviceType::Mouse => 254nat,
        }),
{
    let r = create_request(device_type);
    let head = r.subrange(0, 4);
    assert(head[0] == r[0] && head[1] == r[1] && head[2] == r[2] && head[3] == r[3]);
    assert(head =~= le_bytes(request_len(device_type) as u32));
    crate::wire::lemma_le_value_of_bytes(request_len(device_type) as u32);
}

/// The instance-id prefixes of the two devices, written out.
pub proof fn lemma_instance_prefix(device_type: DeviceType)
    ensures
        instance_prefix(VENDOR_ID_LOGITECH, device_type.spec_product_id()) == (match device_type {
            DeviceType::Keyboard => "LGHUBDevice\\VID_046D&PID_C232"@,
            DeviceType::Mouse => "LGHUBDevice\\VID_046D&PID_C231"@,
        }),
{
    reveal_strlit("LGHUBDevice\\VID_046D&PID_C232");
    reveal_strlit("LGHUBDevice\\VID_046D&PID_C231");
    let prefix = instance_prefix(VENDOR_ID_LOGITECH, device_type.spec_product_id());
    assert(prefix.len() == 29);
    match device_type {
        DeviceType::Keyboard => {
            assert(prefix =~= "LGHUBDevice\\VID_046D&PID_C232"@);
        },
        DeviceType::Mouse => {
            assert(prefix =~= "LGHUBDevice\\VID_046D&PID_C231"@);
        },
    }
}

/// In a create request the 29 characters of the instance-id prefix take two
/// bytes each, the character's number and a zero, and zeros fill the field.
pub proof fn lemma_prefix_field(device_type: DeviceType, k: int)
    requires
        0 <= k < PREFIX_CAPACITY,
    ensures
        prefix_field(device_type).len() == PREFIX_CAPACITY,
        prefix_field(device_type)[k] == (if k < 58 && k % 2 == 0 {
            instance_prefix(VENDOR_ID_LOGITECH, device_type.spec_product_id())[k / 2] as u8
        } else {
            0u8
        }),
{
    lemma_instance_prefix(device_type);
    reveal_strlit("LGHUBDevice\\VID_046D&PID_C232");
    reveal_strlit("LGHUBDevice\\VID_046D&PID_C231");
    let prefix = instance_prefix(VENDOR_ID_LOGITECH, device_type.spec_product_id());
    assert forall|i: int| 0 <= i < prefix.len() implies (prefix[i] as int) < 0x80 by {}
    lemma_utf16_units_of_bmp(prefix);
}

/// A destroy request declares its own length, 20, and holds the id and the flag.
pub proof fn lemma_destroy_request_fields(device_id: u32, device_type: DeviceType)
    ensures
        destroy_request(device_id, device_type).len() == 20,
        le_value(destroy_request(device_id, device_type).subrange(0, 4)) == 20,
        le_value(destroy_request(device_id, device_type).subrange(4, 8)) == device_id,
        le_value(destroy_request(device_id, device_type).subrange(8, 12))
            == device_type.spec_flag(),
{
    let r = destroy_request(device_id, device_type);
    assert(r.subrange(0, 4) =~= le_bytes(DESTROY_REQUEST_LEN as u32));
    assert(r.subrange(4, 8) =~= le_bytes(device_id));
    assert(r.subrange(8, 12) =~= le_bytes(device_type.spec_flag()));
    crate::wire::lemma_le_value_of_bytes(DESTROY_REQUEST_LEN as u32);
    crate::wire::lemma_le_value_of_bytes(device_id);
    crate::wire::lemma_le_value_of_bytes(device_type.spec_flag());
}

/// Reading the bytes of a mouse report gives the report back.
pub proof fn lemma_mouse_report_round_trip(report: MouseInput)
    ensures
        mouse_report(report).len() == 5,
        read_mouse_report(mouse_report(report)) == Some(report),
{
    crate::wire::lemma_signed_of_byte(report.button);
    crate::wire::lemma_signed_of_byte(report.x);
    crate::wire::lemma_signed_of_byte(report.y);
    crate::wire::lemma_signed_of_byte(report.wheel);
    crate::wire::lemma_signed_of_byte(report.reserved);
}

/// Writing the mouse report that five bytes spell gives the bytes back.
pub proof fn lemma_mouse_bytes_round_trip(bytes: Seq<u8>)
    requires
        bytes.len() == 5,
    ensures
        mouse_report(read_mouse_report(bytes)->0) == bytes,
{
    crate::wire::lemma_byte_of_signed(bytes[0]);
    crate::wire::lemma_byte_of_signed(bytes[1]);
    crate::wire::lemma_byte_of_signed(bytes[2]);
    crate::wire::lemma_byte_of_signed(bytes[3]);
    crate::wire::lemma_byte_of_signed(bytes[4]);
    assert(mouse_report(read_mouse_report(bytes)->0) =~= bytes);
}

/// Reading the bytes of a keyboard report gives the report back.
pub proof fn lemma_keyboard_report_round_trip(report: KeyboardInput)
    ensures
        keyboard_report(report).len() == 8,
        read_keyboard_report(keyboard_report(report)) == Some(report),
{
    let read = read_keyboard_report(keyboard_report(report))->0;
    assert(read.keys@ =~= report.keys@);
    assert(read.keys =~= report.keys);
}

/// Writing the keyboard report that eight bytes spell gives the bytes back.
pub proof fn lemma_keyboard_bytes_round_trip(bytes: Seq<u8>)
    requires
        bytes.len() == 8,
    ensures
        keyboard_report(read_keyboard_report(bytes)->0) == bytes,
{
    assert(keyboard_report(read_keyboard_report(bytes)->0) =~= bytes);
}

/// The length of the request that creates a device of this type.
pub fn create_request_len(device_type: DeviceType) -> (r: usize)
    ensures
        r == request_len(device_type),
{
    match device_type {
        DeviceType::Keyboard => KEYBOARD_REQUEST_LEN,
        DeviceType::Mouse => MOUSE_REQUEST_LEN,
    }
}

/// The constant that marks this type of device for the bus driver.
pub fn magic_of(device_type: DeviceType) -> (r: u32)
    ensures
        r == magic(device_type),
{
    match device_type {
        DeviceType::Keyboard => KEYBOARD_MAGIC,
        DeviceType::Mouse => MOUSE_MAGIC,
    }
}

/// The HID report descriptor of this type of device.
pub fn report_descriptor_of(device_type: DeviceType) -> (r: Vec<u8>)
    ensures
        r@ == report_descriptor(device_type),
{
    let mut out: Vec<u8> = Vec::new();
    match device_type {
        DeviceType::Keyboard => {
            let mut i: usize = 0;
            while i < 63
                invariant
                    i <= 63,
                    out@ == KEYBOARD_REPORT_DESCRIPTOR@.subrange(0, i as int),
                decreases 63 - i,
            {
                out.push(KEYBOARD_REPORT_DESCRIPTOR[i]);
                assert(out@ =~= KEYBOARD_REPORT_DESCRIPTOR@.subrange(0, i + 1));
                i += 1;
            }
            assert(out@ =~= KEYBOARD_REPORT_DESCRIPTOR@);
        },
        DeviceType::Mouse => {
            let mut i: usize = 0;
            while i < 52
                invariant
                    i <= 52,
                    out@ == MOUSE_REPORT_DESCRIPTOR@.subrange(0, i as int),
                decreases 52 - i,
            {
                out.push(MOUSE_REPORT_DESCRIPTOR[i]);
                assert(out@ =~= MOUSE_REPORT_DESCRIPTOR@.subrange(0, i + 1));
                i += 1;
            }
            assert(out@ =~= MOUSE_REPORT_DESCRIPTOR@);
        },
    }
    out
}

/// Builds the request that creates a device of this type.
///
/// The request declares its own length at its start; that length is 246 for
/// a keyboard and 254 for a mouse.
pub fn encode_create_request(device_type: DeviceType) -> (r: Vec<u8>)
    ensures
        r@ == create_request(device_type),
        r@.len() == le_value(r@.subrange(0, 4)),
        r@.len() == (match device_type {
            DeviceType::Keyboard => 246nat,
            DeviceType::Mouse => 254nat,
        }),
{
    let len: usize = create_request_len(device_type);
    let mut buf: Vec<u8> = vec![0u8; len];
    let prefix = make_instance_prefix(VENDOR_ID_LOGITECH, device_type.product_id());
    let units = encode_utf16(prefix.as_slice());
    let descriptor = report_descriptor_of(device_type);
    write_wide(&mut buf, PREFIX_OFFSET, PREFIX_CAPACITY, units.as_slice());
    write_u32(&mut buf, 0, len as u32);
    write_u32(&mut buf, 8, CREATE_REQUEST_TAG);
    write_u32(&mut buf, 12, CREATE_REQUEST_SUBLENGTH);
    write_u32(&mut buf, MAGIC_OFFSET, magic_of(device_type));
    write_u32(&mut buf, FLAG_OFFSET, device_type.flag());
    write_u32(&mut buf, DESCRIPTOR_LEN_OFFSET, descriptor.len() as u32);
    write_bytes(&mut buf, DESCRIPTOR_OFFSET, descriptor.as_slice());
    proof {
        assert(buf@ =~= create_request(device_type));
        lemma_create_request_length(device_type);
    }
    buf
}

/// Builds the request that destroys the device `device_id` of this type.
pub fn encode_destroy_request(device_id: u32, device_type: DeviceType) -> (r: Vec<u8>)
    ensures
        r@ == destroy_request(device_id, device_type),
        r@.len() == 20,
{
    let mut buf: Vec<u8> = vec![0u8; DESTROY_REQUEST_LEN];
    write_u32(&mut buf, 0, DESTROY_REQUEST_LEN as u32);
    write_u32(&mut buf, 4, device_id);
    write_u32(&mut buf, 8, device_type.flag());
    assert(buf@ =~= destroy_request(device_id, device_type));
    buf
}

/// Reads the id of the new device from the response to a create request.
///
/// A response of fewer than eight bytes is a protocol violation; of any other
/// the id is the number at offset 4.
pub fn decode_create_response(response: &[u8]) -> (r: Result<u32, VHidError>)
    ensures
        match created_id(response@) {
            Some(id) => r == Ok::<u32, VHidError>(id),
            None => r == Err::<u32, VHidError>(VHidError::ProtocolViolation),
        },
{
    if response.len() < CREATE_RESPONSE_MIN_LEN {
        Err(VHidError::ProtocolViolation)
    } else {
        proof {
            crate::wire::lemma_le_bytes_of_value(response@.subrange(4, 8));
        }
        Ok(read_u32(response, 4))
    }
}

/// The five bytes of a mouse report, as they are written to the device.
pub fn encode_mouse_report(report: &MouseInput) -> (r: Vec<u8>)
    ensures
        r@ == mouse_report(*report),
{
    let mut out: Vec<u8> = Vec::new();
    out.push(to_byte(report.button));
    out.push(to_byte(report.x));
    out.push(to_byte(report.y));
    out.push(to_byte(report.wheel));
    out.push(to_byte(report.reserved));
    assert(out@ =~= mouse_report(*report));
    out
}

/// Reads a mouse report from its bytes: there is one exactly where the bytes
/// are five.
pub fn decode_mouse_report(bytes: &[u8]) -> (r: Option<MouseInput>)
    ensures
        r == read_mouse_report(bytes@),
{
    if bytes.len() != MOUSE_REPORT_LEN {
        return None;
    }
    let report = MouseInput {
        button: to_signed(bytes[0]),
        x: to_signed(bytes[1]),
        y: to_signed(bytes[2]),
        wheel: to_signed(bytes[3]),
        reserved: to_signed(bytes[4]),
    };
    Some(report)
}

/// The eight bytes of a keyboard report, as they are written to the device.
pub fn encode_keyboard_report(report: &KeyboardInput) -> (r: Vec<u8>)
    ensures
        r@ == keyboard_report(*report),
{
    let mut out: Vec<u8> = Vec::new();
    out.push(report.modifiers);
    out.push(report.reserved);
    out.push(report.keys[0]);
    out.push(report.keys[1]);
    out.push(report.keys[2]);
    out.push(report.keys[3]);
    out.push(report.keys[4]);
    out.push(report.keys[5]);
    assert(out@ =~= keyboard_report(*report));
    out
}

/// Reads a keyboard report from its bytes: there is one exactly where the
/// bytes are eight.
pub fn decode_keyboard_report(bytes: &[u8]) -> (r: Option<KeyboardInput>)
    ensures
        r == read_keyboard_report(bytes@),
{
    if bytes.len() != KEYBOARD_REPORT_LEN {
        return None;
    }
    let report = KeyboardInput {
        modifiers: bytes[0],
        reserved: bytes[1],
        keys: [bytes[2], bytes[3], bytes[4], bytes[5], bytes[6], bytes[7]],
    };
    proof {
        let spelled = read_keyboard_report(bytes@)->0;
        assert(report.keys@ =~= spelled.keys@);
        assert(report.keys =~= spelled.keys);
    }
    Some(report)
}

} // verus!
