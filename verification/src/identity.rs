//! What an instance id says of a device: which of the two emulated devices it
//! is, and the number at its end.

use crate::constants::{
    PRODUCT_ID_VIRTUAL_KEYBOARD, PRODUCT_ID_VIRTUAL_MOUSE, VENDOR_ID_LOGITECH,
};
use crate::number::{hex_u32, parse_hex_u32};
use crate::text::{
    chars_of, contains, hex4, last_segment, occurs, push_hex4, start_of_last_segment,
    to_uppercase, uppercase,
};
use crate::types::DeviceType;
use vstd::prelude::*;

verus! {

/// The first part of every emulated device's instance id.
pub open spec fn enumerator_prefix() -> Seq<char> {
    seq!['L', 'G', 'H', 'U', 'B', 'D', 'e', 'v', 'i', 'c', 'e', '\\']
}

/// The token that names a vendor in an instance id: `VID_` and four digits.
pub open spec fn vendor_token(vendor: u16) -> Seq<char> {
    seq!['V', 'I', 'D', '_'] + hex4(vendor)
}

/// The token that names a product in an instance id: `PID_` and four digits.
pub open spec fn product_token(product: u16) -> Seq<char> {
    seq!['P', 'I', 'D', '_'] + hex4(product)
}

/// The instance-id prefix of a device: `LGHUBDevice\VID_<vendor>&PID_<product>`.
pub open spec fn instance_prefix(vendor: u16, product: u16) -> Seq<char> {
    enumerator_prefix() + vendor_token(vendor) + seq!['&'] + product_token(product)
}

/// Whether an upper-cased instance id holds both the vendor's and the
/// product's token.
pub open spec fn names_device(upper: Seq<char>, vendor: u16, product: u16) -> bool {
    occurs(vendor_token(vendor), upper) && occurs(product_token(product), upper)
}

/// Which device an upper-cased instance id names; the keyboard is looked for first.
pub open spec fn kind_of_upper(upper: Seq<char>) -> Option<DeviceType> {
    if names_device(upper, VENDOR_ID_LOGITECH, PRODUCT_ID_VIRTUAL_KEYBOARD) {
        Some(DeviceType::Keyboard)
    } else if names_device(upper, VENDOR_ID_LOGITECH, PRODUCT_ID_VIRTUAL_MOUSE) {
        Some(DeviceType::Mouse)
    } else {
        None
    }
}

/// Which device an instance id names, whatever the case of its letters.
pub open spec fn device_kind(instance_id: Seq<char>) -> Option<DeviceType> {
    kind_of_upper(uppercase(instance_id))
}

/// The number at the end of an instance id: behind the last `\`, behind the
/// last `&` of that, read in base 16.
pub open spec fn device_id(instance_id: Seq<char>) -> Option<u32> {
    hex_u32(last_segment(last_segment(instance_id, '\\'), '&'))
}

/// The vendor's token.
pub fn make_vendor_token(vendor: u16) -> (r: Vec<char>)
    ensures
        r@ == vendor_token(vendor),
{
    let mut out: Vec<char> = vec!['V', 'I', 'D', '_'];
    assert(out@ =~= seq!['V', 'I', 'D', '_']);
    push_hex4(&mut out, vendor);
    out
}

/// The product's token.
pub fn make_product_token(product: u16) -> (r: Vec<char>)
    ensures
        r@ == product_token(product),
{
    let mut out: Vec<char> = vec!['P', 'I', 'D', '_'];
    assert(out@ =~= seq!['P', 'I', 'D', '_']);
    push_hex4(&mut out, product);
    out
}

/// The instance-id prefix of a device.
pub fn make_instance_prefix(vendor: u16, product: u16) -> (r: Vec<char>)
    ensures
        r@ == instance_prefix(vendor, product),
{
    let mut out: Vec<char> = vec!['L', 'G', 'H', 'U', 'B', 'D', 'e', 'v', 'i', 'c', 'e', '\\'];
    assert(out@ =~= enumerator_prefix());
    out.push('V');
    out.push('I');
    out.push('D');
    out.push('_');
    push_hex4(&mut out, vendor);
    out.push('&');
    out.push('P');
    out.push('I');
    out.push('D');
    out.push('_');
    push_hex4(&mut out, product);
    assert(out@ =~= instance_prefix(vendor, product));
    out
}

/// Whether an upper-cased instance id holds both the vendor's and the
/// product's token.
pub fn upper_names_device(upper: &[char], vendor: u16, product: u16) -> (r: bool)
    ensures
        r == names_device(upper@, vendor, product),
{
    let vid = make_vendor_token(vendor);
    let pid = make_product_token(product);
    contains(upper, vid.as_slice()) && contains(upper, pid.as_slice())
}

/// Which device an upper-cased instance id names.
pub fn classify_upper(upper: &[char]) -> (r: Option<DeviceType>)
    ensures
        r == kind_of_upper(upper@),
{
    if upper_names_device(upper, VENDOR_ID_LOGITECH, PRODUCT_ID_VIRTUAL_KEYBOARD) {
        Some(DeviceType::Keyboard)
    } else if upper_names_device(upper, VENDOR_ID_LOGITECH, PRODUCT_ID_VIRTUAL_MOUSE) {
        Some(DeviceType::Mouse)
    } else {
        None
    }
}

/// Which device an instance id names, whatever the case of its letters.
pub fn classify(instance_id: &str) -> (r: Option<DeviceType>)
    ensures
        r == device_kind(instance_id@),
{
    let upper = to_uppercase(instance_id);
    let chars = chars_of(upper.as_str());
    classify_upper(chars.as_slice())
}

/// Whether an instance id names the emulated keyboard: it holds, whatever the
/// case of its letters, the vendor's token and the keyboard's product token.
pub fn is_virtual_keyboard(instance_id: &str) -> (r: bool)
    ensures
        r == names_device(
            uppercase(instance_id@),
            VENDOR_ID_LOGITECH,
            PRODUCT_ID_VIRTUAL_KEYBOARD,
        ),
{
    let upper = to_uppercase(instance_id);
    let chars = chars_of(upper.as_str());
    upper_names_device(chars.as_slice(), VENDOR_ID_LOGITECH, PRODUCT_ID_VIRTUAL_KEYBOARD)
}

/// Whether an instance id names the emulated mouse: it holds, whatever the
/// case of its letters, the vendor's token and the mouse's product token.
pub fn is_virtual_mouse(instance_id: &str) -> (r: bool)
    ensures
        r == names_device(uppercase(instance_id@), VENDOR_ID_LOGITECH, PRODUCT_ID_VIRTUAL_MOUSE),
{
    let upper = to_uppercase(instance_id);
    let chars = chars_of(upper.as_str());
    upper_names_device(chars.as_slice(), VENDOR_ID_LOGITECH, PRODUCT_ID_VIRTUAL_MOUSE)
}

/// The number at the end of an instance id; `None` where what stands there is
/// no hexadecimal number of 32 bits.
pub fn parse_device_id(instance_id: &str) -> (r: Option<u32>)
    ensures
        r == device_id(instance_id@),
{
    let chars = chars_of(instance_id);
    let n: usize = chars.len();
    let a: usize = start_of_last_segment(chars.as_slice(), 0, '\\');
    let b: usize = start_of_last_segment(chars.as_slice(), a, '&');
    proof {
        let s = instance_id@;
        assert(s.subrange(0, n as int) =~= s);
        let outer = last_segment(s, '\\');
        assert(outer =~= s.subrange(a as int, n as int));
        assert(last_segment(outer, '&') =~= s.subrange(b as int, n as int));
    }
    parse_hex_u32(chars.as_slice(), b)
}

/// What an instance id tells of an emulated device.
#[derive(Debug, PartialEq, Eq)]
pub struct DeviceIdentity {
    /// The vendor that the id names.
    pub vendor_id: u16,
    /// The product that the id names.
    pub product_id: u16,
    /// The instance id as it was read.
    pub raw_instance_id: String,
}

impl DeviceIdentity {
    /// Which emulated device has this vendor and product.
    pub open spec fn spec_device_type(&self) -> Option<DeviceType> {
        if self.vendor_id != VENDOR_ID_LOGITECH {
            None
        } else if self.product_id == PRODUCT_ID_VIRTUAL_KEYBOARD {
            Some(DeviceType::Keyboard)
        } else if self.product_id == PRODUCT_ID_VIRTUAL_MOUSE {
            Some(DeviceType::Mouse)
        } else {
            None
        }
    }

    /// The identity that an instance id gives: that of the emulated device
    /// which it names, with the id itself; none where it names neither.
    pub fn parse(instance_id: &str) -> (r: Option<DeviceIdentity>)
        ensures
            match device_kind(instance_id@) {
                Some(kind) => {
                    &&& r matches Some(identity)
                    &&& identity.vendor_id == VENDOR_ID_LOGITECH
                    &&& identity.product_id == kind.spec_product_id()
                    &&& identity.raw_instance_id@ == instance_id@
                    &&& identity.spec_device_type() == Some(kind)
                },
                None => r is None,
            },
    {
        match classify(instance_id) {
            Some(kind) => Some(
                DeviceIdentity {
                    vendor_id: VENDOR_ID_LOGITECH,
                    product_id: kind.product_id(),
                    raw_instance_id: instance_id.to_owned(),
                },
            ),
            None => None,
        }
    }

    /// Which emulated device has this vendor and product.
    #[verifier::when_used_as_spec(spec_device_type)]
    pub fn device_type(&self) -> (r: Option<DeviceType>)
        ensures
            r == self.spec_device_type(),
    {
        if self.vendor_id != VENDOR_ID_LOGITECH {
            None
        } else if self.product_id == PRODUCT_ID_VIRTUAL_KEYBOARD {
            Some(DeviceType::Keyboard)
        } else if self.product_id == PRODUCT_ID_VIRTUAL_MOUSE {
            Some(DeviceType::Mouse)
        } else {
            None
        }
    }

    /// The number at the end of the instance id.
    pub fn device_id(&self) -> (r: Option<u32>)
        ensures
            r == device_id(self.raw_instance_id@),
    {
        parse_device_id(self.raw_instance_id.as_str())
    }
}

} // verus!
