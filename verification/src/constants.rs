//! Names, control codes and identifiers shared with the bus driver.

use vstd::prelude::*;

verus! {

/// File name of the bus driver's setup information file.
pub const INF_BUS_FILE: &'static str = "logi_joy_bus_enum.inf";

/// File name of the HID driver's setup information file.
pub const INF_HID_FILE: &'static str = "logi_joy_vir_hid.inf";

/// Hardware id of the virtual bus node.
pub const HARDWARE_ID: &'static str = "root\\LGHUBVirtualBus";

/// Device name under which the bus node is registered.
pub const DEVICE_NAME: &'static str = "System";

/// Well-known path of the bus device's control channel.
pub const BUS_DEVICE_PATH: &'static str =
    "\\\\?\\root#system#0001#{dfbedcdb-2148-416d-9e4d-cecc2424128c}";

/// First path under which the emulated input device may be reached.
pub const INPUT_DEVICE_PATH_1: &'static str =
    "\\\\.\\ROOT#SYSTEM#0001#{1abc05c0-c378-41b9-9cef-df1aba82b015}";

/// Second path under which the emulated input device may be reached.
pub const INPUT_DEVICE_PATH_2: &'static str =
    "\\\\.\\ROOT#SYSTEM#0002#{1abc05c0-c378-41b9-9cef-df1aba82b015}";

/// Third path under which the emulated input device may be reached.
pub const INPUT_DEVICE_PATH_3: &'static str =
    "\\\\.\\ROOT#SYSTEM#0003#{1abc05c0-c378-41b9-9cef-df1aba82b015}";

/// Control code of the create-device transaction.
pub const IOCTL_BUS_CREATE_DEVICE: u32 = 0x2A2000;

/// Control code of the destroy-device transaction.
pub const IOCTL_BUS_DESTROY_DEVICE: u32 = 0x2A2004;

/// Control code that writes to the primary device.
pub const IOCTL_WRITE_PRIMARY_DEVICE: u32 = 0x2A200C;

/// Control code that writes to the secondary device.
pub const IOCTL_WRITE_SECONDARY_DEVICE: u32 = 0x2A2010;

/// Control code that carries a mouse report: the write to the secondary device.
pub const IOCTL_MOVE_MOUSE: u32 = IOCTL_WRITE_SECONDARY_DEVICE;

/// Control code that carries a keyboard report: the write to the primary device.
pub const IOCTL_SEND_KEYBOARD: u32 = IOCTL_WRITE_PRIMARY_DEVICE;

/// Control code that reads from the third device.
pub const IOCTL_READ_TERTIARY_DEVICE: u32 = 0x2A203C;

/// Control code that starts an asynchronous read.
pub const IOCTL_START_ASYNC_READ: u32 = 0x2A2023;

/// Control code that starts an asynchronous write.
pub const IOCTL_START_ASYNC_WRITE: u32 = 0x2A2024;

/// Vendor id that the emulated devices report.
pub const VENDOR_ID_LOGITECH: u16 = 0x046D;

/// Product id of the emulated keyboard.
pub const PRODUCT_ID_VIRTUAL_KEYBOARD: u16 = 0xC232;

/// Product id of the emulated mouse.
pub const PRODUCT_ID_VIRTUAL_MOUSE: u16 = 0xC231;

/// Device-type flag of a keyboard in bus packets.
pub const DEVICE_TYPE_KEYBOARD: u32 = 0;

/// Device-type flag of a mouse in bus packets.
pub const DEVICE_TYPE_MOUSE: u32 = 1;

} // verus!
