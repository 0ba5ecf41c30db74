//! The control channel to a device: how it is opened, what is submitted on
//! it, what its answers mean, and its release.

use crate::codec::{
    create_request, create_request_len, created_id, decode_create_response, destroy_request,
    encode_create_request, encode_destroy_request, encode_keyboard_report, encode_mouse_report,
    keyboard_report, mouse_report, request_len,
};
use crate::constants::{
    BUS_DEVICE_PATH, INPUT_DEVICE_PATH_1, INPUT_DEVICE_PATH_2, INPUT_DEVICE_PATH_3,
    IOCTL_BUS_CREATE_DEVICE, IOCTL_BUS_DESTROY_DEVICE, IOCTL_MOVE_MOUSE, IOCTL_SEND_KEYBOARD,
};
use crate::status::VHidError;
use crate::types::{DeviceType, KeyboardInput, MouseInput};
use vstd::prelude::*;

verus! {

/// Whether the operating system's value `raw` stands for no handle: the
/// values 0 and -1 do.
pub open spec fn is_invalid_handle(raw: isize) -> bool {
    raw == -1 || raw == 0
}

/// Whether the operating system's value `raw` stands for no handle.
#[verifier::when_used_as_spec(is_invalid_handle)]
pub fn handle_is_invalid(raw: isize) -> (r: bool)
    ensures
        r == is_invalid_handle(raw),
{
    raw == -1 || raw == 0
}

/// How a device is to be opened.
#[derive(Debug, Clone, Copy, PartialEq, Eq)]
pub struct OpenRequest {
    /// The path of the device.
    pub path: &'static str,
    /// Whether read access is asked for.
    pub read: bool,
    /// Whether write access is asked for.
    pub write: bool,
    /// Whether others may read the device meanwhile.
    pub share_read: bool,
    /// Whether others may write to the device meanwhile.
    pub share_write: bool,
    /// Whether the handle is to allow overlapped transactions.
    pub overlapped: bool,
}

/// One device-control transaction to submit.
#[derive(Debug, Clone, PartialEq, Eq)]
pub struct Transaction {
    /// The handle to submit it on.
    pub handle: isize,
    /// The control code.
    pub control_code: u32,
    /// The bytes handed to the driver.
    pub input: Vec<u8>,
    /// The size of the buffer for the driver's answer; zero where none is
    /// expected.
    pub output_len: usize,
}

impl Transaction {
    /// Whether this transaction is made of exactly these parts.
    pub open spec fn is(&self, handle: isize, control_code: u32, input: Seq<u8>, output_len: nat)
        -> bool {
        &&& self.handle == handle
        &&& self.control_code == control_code
        &&& self.input@ == input
        &&& self.output_len == output_len
    }
}

/// How the bus device is opened: at its well-known path, for reading and
/// writing, shared for both, fit for overlapped transactions.
pub fn bus_open_request() -> (r: OpenRequest)
    ensures
        r.path@ == BUS_DEVICE_PATH@,
        r.read && r.write && r.share_read && r.share_write && r.overlapped,
{
    OpenRequest {
        path: BUS_DEVICE_PATH,
        read: true,
        write: true,
        share_read: true,
        share_write: true,
        overlapped: true,
    }
}

/// The path at which attempt number `attempt` tries to reach the emulated
/// input device: there are three, tried in order.
pub open spec fn input_device_path(attempt: nat) -> Option<Seq<char>> {
    if attempt == 0 {
        Some(INPUT_DEVICE_PATH_1@)
    } else if attempt == 1 {
        Some(INPUT_DEVICE_PATH_2@)
    } else if attempt == 2 {
        Some(INPUT_DEVICE_PATH_3@)
    } else {
        None
    }
}

/// How attempt number `attempt` opens the emulated input device, for writing
/// only; `None` when every path has been tried.
pub fn input_open_request(attempt: usize) -> (r: Option<OpenRequest>)
    ensures
        r is Some <==> attempt < 3,
        r matches Some(request) ==> {
            &&& Some(request.path@) == input_device_path(attempt as nat)
            &&& request.write && !request.read
            &&& !request.share_read && !request.share_write && !request.overlapped
        },
{
    let path: &'static str = if attempt == 0 {
        INPUT_DEVICE_PATH_1
    } else if attempt == 1 {
        INPUT_DEVICE_PATH_2
    } else if attempt == 2 {
        INPUT_DEVICE_PATH_3
    } else {
        return None;
    };
    Some(
        OpenRequest {
            path,
            read: false,
            write: true,
            share_read: false,
            share_write: false,
            overlapped: false,
        },
    )
}

/// The channel to a device: closed, or open on a handle of the operating
/// system.
#[derive(Debug, PartialEq, Eq)]
pub struct BusChannel {
    /// The handle while the channel is open.
    pub handle: Option<isize>,
}

impl BusChannel {
    /// The handle on which transactions go out, if the channel is open.
    pub open spec fn open_handle(&self) -> Option<isize> {
        match self.handle {
            Some(raw) => if is_invalid_handle(raw) {
                None
            } else {
                Some(raw)
            },
            None => None,
        }
    }

    /// Whether the channel is open.
    pub open spec fn spec_is_open(&self) -> bool {
        self.open_handle() is Some
    }

    /// A channel that is not open.
    pub fn closed() -> (r: Self)
        ensures
            r.handle is None,
            !r.spec_is_open(),
    {
        BusChannel { handle: None }
    }

    /// Whether the channel is open.
    #[verifier::when_used_as_spec(spec_is_open)]
    pub fn is_open(&self) -> (r: bool)
        ensures
            r == self.spec_is_open(),
    {
        self.current().is_some()
    }

    /// The handle on which transactions go out, if the channel is open.
    pub fn current(&self) -> (r: Option<isize>)
        ensures
            r == self.open_handle(),
    {
        match self.handle {
            Some(raw) => {
                if handle_is_invalid(raw) {
                    None
                } else {
                    Some(raw)
                }
            },
            None => None,
        }
    }

    /// Takes over what an attempt to open the device returned. The channel
    /// is open afterwards exactly where it was open before or `raw` is a
    /// handle; `true` says that `raw` is now the channel's own, `false` that
    /// it is not (it is no handle, or the channel was open already).
    pub fn attach(&mut self, raw: isize) -> (r: bool)
        ensures
            r == (!old(self).spec_is_open() && !is_invalid_handle(raw)),
            r ==> final(self).open_handle() == Some(raw),
            !r ==> final(self).open_handle() == old(self).open_handle(),
    {
        if self.is_open() || handle_is_invalid(raw) {
            false
        } else {
            self.handle = Some(raw);
            true
        }
    }

    /// Closes the channel and hands out the handle that is to be released:
    /// the open channel's handle, once. Closing a closed channel hands out
    /// nothing.
    pub fn close(&mut self) -> (r: Option<isize>)
        ensures
            r == old(self).open_handle(),
            final(self).handle is None,
            !final(self).spec_is_open(),
    {
        let released = self.current();
        self.handle = None;
        released
    }

    /// The transaction that creates a device of this type. The answer is
    /// awaited in a buffer as long as the request.
    pub fn send_create(&self, device_type: DeviceType) -> (r: Result<Transaction, VHidError>)
        ensures
            match self.open_handle() {
                Some(handle) => r matches Ok(t) && t.is(
                    handle,
                    IOCTL_BUS_CREATE_DEVICE,
                    create_request(device_type),
                    request_len(device_type),
                ),
                None => r == Err::<Transaction, VHidError>(VHidError::NotInitialized),
            },
    {
        match self.current() {
            Some(handle) => Ok(
                Transaction {
                    handle,
                    control_code: IOCTL_BUS_CREATE_DEVICE,
                    input: encode_create_request(device_type),
                    output_len: create_request_len(device_type),
                },
            ),
            None => Err(VHidError::NotInitialized),
        }
    }

    /// The transaction that destroys the device `device_id` of this type. No
    /// answer is awaited.
    pub fn send_destroy(&self, device_id: u32, device_type: DeviceType) -> (r: Result<
        Transaction,
        VHidError,
    >)
        ensures
            match self.open_handle() {
                Some(handle) => r matches Ok(t) && t.is(
                    handle,
                    IOCTL_BUS_DESTROY_DEVICE,
                    destroy_request(device_id, device_type),
                    0,
                ),
                None => r == Err::<Transaction, VHidError>(VHidError::NotInitialized),
            },
    {
        match self.current() {
            Some(handle) => Ok(
                Transaction {
                    handle,
                    control_code: IOCTL_BUS_DESTROY_DEVICE,
                    input: encode_destroy_request(device_id, device_type),
                    output_len: 0,
                },
            ),
            None => Err(VHidError::NotInitialized),
        }
    }

    /// The transaction that writes report bytes under a control code. No
    /// answer is awaited.
    pub fn send_report(&self, control_code: u32, report_bytes: Vec<u8>) -> (r: Result<
        Transaction,
        VHidError,
    >)
        ensures
            match self.open_handle() {
                Some(handle) => r matches Ok(t) && t.is(handle, control_code, report_bytes@, 0),
                None => r == Err::<Transaction, VHidError>(VHidError::NotInitialized),
            },
    {
        match self.current() {
            Some(handle) => Ok(
                Transaction { handle, control_code, input: report_bytes, output_len: 0 },
            ),
            None => Err(VHidError::NotInitialized),
        }
    }

    /// The transaction that writes a mouse report. An absent report is
    /// turned down first, a closed channel second.
    pub fn send_mouse_report(&self, report: Option<&MouseInput>) -> (r: Result<
        Transaction,
        VHidError,
    >)
        ensures
            match (report, self.open_handle()) {
                (None, _) => r == Err::<Transaction, VHidError>(VHidError::InvalidParameter),
                (Some(_), None) => r == Err::<Transaction, VHidError>(VHidError::NotInitialized),
                (Some(report), Some(handle)) => r matches Ok(t) && t.is(
                    handle,
                    IOCTL_MOVE_MOUSE,
                    mouse_report(*report),
                    0,
                ),
            },
    {
        match report {
            None => Err(VHidError::InvalidParameter),
            Some(report) => self.send_report(IOCTL_MOVE_MOUSE, encode_mouse_report(report)),
        }
    }

    /// The transaction that writes a keyboard report. An absent report is
    /// turned down first, a closed channel second.
    pub fn send_keyboard_report(&self, report: Option<&KeyboardInput>) -> (r: Result<
        Transaction,
        VHidError,
    >)
        ensures
            match (report, self.open_handle()) {
                (None, _) => r == Err::<Transaction, VHidError>(VHidError::InvalidParameter),
                (Some(_), None) => r == Err::<Transaction, VHidError>(VHidError::NotInitialized),
                (Some(report), Some(handle)) => r matches Ok(t) && t.is(
                    handle,
                    IOCTL_SEND_KEYBOARD,
                    keyboard_report(*report),
                    0,
                ),
            },
    {
        match report {
            None => Err(VHidError::InvalidParameter),
            Some(report) => self.send_report(IOCTL_SEND_KEYBOARD, encode_keyboard_report(report)),
        }
    }
}

/// What the end of a create transaction means: the id of the new device
/// where the driver answered with at least eight bytes, a protocol violation
/// where it answered with fewer, and where the transaction failed a channel
/// error with the operating system's text as it came.
pub open spec fn creation_outcome(completion: Result<Seq<u8>, String>) -> Result<u32, VHidError> {
    match completion {
        Ok(response) => match created_id(response) {
            Some(id) => Ok(id),
            None => Err(VHidError::ProtocolViolation),
        },
        Err(text) => Err(VHidError::ChannelError(text)),
    }
}

/// Reads the end of a create transaction: the driver's answer, or the
/// operating system's text where the transaction failed.
pub fn create_result(completion: Result<Vec<u8>, String>) -> (r: Result<u32, VHidError>)
    ensures
        r == creation_outcome(
            match completion {
                Ok(response) => Ok(response@),
                Err(text) => Err(text),
            },
        ),
{
    match completion {
        Ok(response) => decode_create_response(response.as_slice()),
        Err(text) => Err(VHidError::ChannelError(text)),
    }
}

/// Reads the end of a transaction that awaits no answer: done, or a channel
/// error with the operating system's text as it came.
pub fn transaction_result(completion: Result<(), String>) -> (r: Result<(), VHidError>)
    ensures
        match completion {
            Ok(_) => r is Ok,
            Err(text) => r == Err::<(), VHidError>(VHidError::ChannelError(text)),
        },
{
    match completion {
        Ok(_) => Ok(()),
        Err(text) => Err(VHidError::ChannelError(text)),
    }
}

} // verus!
