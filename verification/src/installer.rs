//! What the answers of the operating system's installer mean.

use crate::text::{
    chars_of, contains, lowercase, occurs, same_chars, to_lowercase,
};
use vstd::prelude::*;

verus! {

/// The word in the installer's text that tells of a removal which a restart
/// completes.
pub const RESTART_REQUIRED_MARK: &'static str = "ERROR_PNP_REBOOT_REQUIRED";

/// The word in the installer's text that tells of a driver which is in the
/// driver store already.
pub const ALREADY_PRESENT_MARK: &'static str = "ERROR_FILE_EXISTS";

/// Whether a device's hardware id is the one looked for: the two are the
/// same but for the case of their letters.
pub open spec fn same_hardware_id(hardware_id: Seq<char>, wanted: Seq<char>) -> bool {
    lowercase(hardware_id) == lowercase(wanted)
}

/// Whether a device's hardware id is the one looked for.
pub fn is_same_hardware_id(hardware_id: &str, wanted: &str) -> (r: bool)
    ensures
        r == same_hardware_id(hardware_id@, wanted@),
{
    let a = to_lowercase(hardware_id);
    let b = to_lowercase(wanted);
    let left = chars_of(a.as_str());
    let right = chars_of(b.as_str());
    same_chars(left.as_slice(), right.as_slice())
}

/// Whether the text of a failed removal says that the device is marked for
/// removal and a restart completes it.
pub fn removal_awaits_restart(error_text: &str) -> (r: bool)
    ensures
        r == occurs(RESTART_REQUIRED_MARK@, error_text@),
{
    let text = chars_of(error_text);
    let mark = chars_of(RESTART_REQUIRED_MARK);
    contains(text.as_slice(), mark.as_slice())
}

/// Whether the text of a failed installation says that the driver is in the
/// driver store already.
pub fn driver_already_present(error_text: &str) -> (r: bool)
    ensures
        r == occurs(ALREADY_PRESENT_MARK@, error_text@),
{
    let text = chars_of(error_text);
    let mark = chars_of(ALREADY_PRESENT_MARK);
    contains(text.as_slice(), mark.as_slice())
}

} // verus!
