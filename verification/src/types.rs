//! The input reports and the pair of device ids.

use crate::constants::{
    DEVICE_TYPE_KEYBOARD, DEVICE_TYPE_MOUSE, PRODUCT_ID_VIRTUAL_KEYBOARD,
    PRODUCT_ID_VIRTUAL_MOUSE,
};
use vstd::prelude::*;

verus! {

/// Which of the two emulated devices.
#[derive(Debug, Clone, Copy, PartialEq, Eq, Structural)]
pub enum DeviceType {
    Keyboard,
    Mouse,
}

impl DeviceType {
    /// The device-type flag that stands for this device in bus packets.
    pub open spec fn spec_flag(&self) -> u32 {
        match self {
            DeviceType::Keyboard => DEVICE_TYPE_KEYBOARD,
            DeviceType::Mouse => DEVICE_TYPE_MOUSE,
        }
    }

    /// The device-type flag that stands for this device in bus packets.
    #[verifier::when_used_as_spec(spec_flag)]
    pub fn flag(&self) -> (r: u32)
        ensures
            r == self.spec_flag(),
    {
        match self {
            DeviceType::Keyboard => DEVICE_TYPE_KEYBOARD,
            DeviceType::Mouse => DEVICE_TYPE_MOUSE,
        }
    }

    /// The product id under which this device is enumerated.
    pub open spec fn spec_product_id(&self) -> u16 {
        match self {
            DeviceType::Keyboard => PRODUCT_ID_VIRTUAL_KEYBOARD,
            DeviceType::Mouse => PRODUCT_ID_VIRTUAL_MOUSE,
        }
    }

    /// The product id under which this device is enumerated.
    #[verifier::when_used_as_spec(spec_product_id)]
    pub fn product_id(&self) -> (r: u16)
        ensures
            r == self.spec_product_id(),
    {
        match self {
            DeviceType::Keyboard => PRODUCT_ID_VIRTUAL_KEYBOARD,
            DeviceType::Mouse => PRODUCT_ID_VIRTUAL_MOUSE,
        }
    }
}

/// One mouse report: the button bits, the relative movement and the wheel.
///
/// Bit 0 of `button` is the left button, bit 1 the right, bit 2 the middle.
#[derive(Debug, Clone, Copy, PartialEq, Eq, Structural)]
pub struct MouseInput {
    pub button: i8,
    pub x: i8,
    pub y: i8,
    pub wheel: i8,
    pub reserved: i8,
}

impl MouseInput {
    /// The report of a mouse at rest.
    pub fn new() -> (r: Self)
        ensures
            r == (MouseInput { button: 0, x: 0, y: 0, wheel: 0, reserved: 0 }),
    {
        Self { button: 0, x: 0, y: 0, wheel: 0, reserved: 0 }
    }

    /// A movement by `x` and `y` with no button held.
    pub fn with_movement(x: i8, y: i8) -> (r: Self)
        ensures
            r == (MouseInput { button: 0, x, y, wheel: 0, reserved: 0 }),
    {
        Self { button: 0, x, y, wheel: 0, reserved: 0 }
    }

    /// The button bits `button`, without movement.
    pub fn with_button(button: i8) -> (r: Self)
        ensures
            r == (MouseInput { button, x: 0, y: 0, wheel: 0, reserved: 0 }),
    {
        Self { button, x: 0, y: 0, wheel: 0, reserved: 0 }
    }

    /// A turn of the wheel by `wheel`, without movement or buttons.
    pub fn with_wheel(wheel: i8) -> (r: Self)
        ensures
            r == (MouseInput { button: 0, x: 0, y: 0, wheel, reserved: 0 }),
    {
        Self { button: 0, x: 0, y: 0, wheel, reserved: 0 }
    }
}

/// One keyboard report: the modifier bits and up to six pressed key codes.
///
/// An unused slot of `keys` holds zero.
#[derive(Debug, Clone, Copy, PartialEq, Eq)]
pub struct KeyboardInput {
    pub modifiers: u8,
    pub reserved: u8,
    pub keys: [u8; 6],
}

impl KeyboardInput {
    /// The report of a keyboard with nothing pressed.
    pub fn new() -> (r: Self)
        ensures
            r.modifiers == 0,
            r.reserved == 0,
            r.keys@ == seq![0u8, 0u8, 0u8, 0u8, 0u8, 0u8],
    {
        let r = Self { modifiers: 0, reserved: 0, keys: [0; 6] };
        assert(r.keys@ =~= seq![0u8, 0u8, 0u8, 0u8, 0u8, 0u8]);
        r
    }

    /// The single key `key` in the first slot, no modifier.
    pub fn with_key(key: u8) -> (r: Self)
        ensures
            r.modifiers == 0,
            r.reserved == 0,
            r.keys@ == seq![key, 0u8, 0u8, 0u8, 0u8, 0u8],
    {
        let mut input = Self::new();
        input.keys[0] = key;
        assert(input.keys@ =~= seq![key, 0u8, 0u8, 0u8, 0u8, 0u8]);
        input
    }

    /// The modifier bits `modifiers` with the six slots `keys`.
    pub fn with_modifiers(modifiers: u8, keys: [u8; 6]) -> (r: Self)
        ensures
            r.modifiers == modifiers,
            r.reserved == 0,
            r.keys == keys,
    {
        Self { modifiers, reserved: 0, keys }
    }

    /// The report that releases every key and modifier.
    pub fn release_all() -> (r: Self)
        ensures
            r.modifiers == 0,
            r.reserved == 0,
            r.keys@ == seq![0u8, 0u8, 0u8, 0u8, 0u8, 0u8],
    {
        Self::new()
    }
}

/// The ids that the bus gave to the two emulated devices, as far as known.
///
/// Both absent means that no emulated device is believed to exist.
#[derive(Debug, Clone, Copy, PartialEq, Eq, Structural)]
pub struct DeviceIds {
    pub keyboard_id: Option<u32>,
    pub mouse_id: Option<u32>,
}

impl DeviceIds {
    /// No device known.
    pub fn new() -> (r: Self)
        ensures
            r == (DeviceIds { keyboard_id: None, mouse_id: None }),
    {
        Self { keyboard_id: None, mouse_id: None }
    }

    /// Whether neither device is known.
    pub open spec fn spec_is_empty(&self) -> bool {
        self.keyboard_id is None && self.mouse_id is None
    }

    /// Whether neither device is known.
    #[verifier::when_used_as_spec(spec_is_empty)]
    pub fn is_empty(&self) -> (r: bool)
        ensures
            r == self.spec_is_empty(),
    {
        self.keyboard_id.is_none() && self.mouse_id.is_none()
    }

    /// Whether the keyboard's id is known.
    pub fn has_keyboard(&self) -> (r: bool)
        ensures
            r == (self.keyboard_id is Some),
    {
        self.keyboard_id.is_some()
    }

    /// Whether the mouse's id is known.
    pub fn has_mouse(&self) -> (r: bool)
        ensures
            r == (self.mouse_id is Some),
    {
        self.mouse_id.is_some()
    }
}

} // verus!
