//! Result codes and errors.

use vstd::prelude::*;

verus! {

/// The status code that every entry point of the foreign interface returns.
#[derive(Debug, Clone, Copy, PartialEq, Eq, Structural)]
pub enum VHidResult {
    Success,
    Error,
    DeviceNotFound,
    AccessDenied,
    InvalidParameter,
    NotInitialized,
}

impl VHidResult {
    /// The number that stands for this status across the foreign interface.
    pub open spec fn spec_code(&self) -> u32 {
        match self {
            VHidResult::Success => 0,
            VHidResult::Error => 1,
            VHidResult::DeviceNotFound => 2,
            VHidResult::AccessDenied => 3,
            VHidResult::InvalidParameter => 4,
            VHidResult::NotInitialized => 5,
        }
    }

    /// The number that stands for this status across the foreign interface.
    #[verifier::when_used_as_spec(spec_code)]
    pub fn code(&self) -> (r: u32)
        ensures
            r == self.spec_code(),
    {
        match self {
            VHidResult::Success => 0,
            VHidResult::Error => 1,
            VHidResult::DeviceNotFound => 2,
            VHidResult::AccessDenied => 3,
            VHidResult::InvalidParameter => 4,
            VHidResult::NotInitialized => 5,
        }
    }

    /// The status that a number stands for, if any.
    pub fn from_code(code: u32) -> (r: Option<VHidResult>)
        ensures
            code <= 5 <==> r is Some,
            r matches Some(s) ==> s.spec_code() == code,
    {
        if code == 0 {
            Some(VHidResult::Success)
        } else if code == 1 {
            Some(VHidResult::Error)
        } else if code == 2 {
            Some(VHidResult::DeviceNotFound)
        } else if code == 3 {
            Some(VHidResult::AccessDenied)
        } else if code == 4 {
            Some(VHidResult::InvalidParameter)
        } else if code == 5 {
            Some(VHidResult::NotInitialized)
        } else {
            None
        }
    }
}

/// What can go wrong between this library, the device tree and the bus.
#[derive(Debug, Clone, PartialEq, Eq)]
pub enum VHidError {
    /// The set of present devices could not be obtained.
    EnumerationFailed,
    /// The bus node is absent.
    DeviceNotFound,
    /// A response of the bus was too short to be read.
    ProtocolViolation,
    /// Opening the bus or a transaction on it failed; the text is the
    /// operating system's own.
    ChannelError(String),
    /// A report was absent or not of the size of a report.
    InvalidParameter,
    /// The channel to the bus is not open.
    NotInitialized,
}

impl VHidError {
    /// The status code under which this error crosses the foreign interface.
    pub open spec fn spec_status(&self) -> VHidResult {
        match self {
            VHidError::EnumerationFailed => VHidResult::Error,
            VHidError::DeviceNotFound => VHidResult::DeviceNotFound,
            VHidError::ProtocolViolation => VHidResult::Error,
            VHidError::ChannelError(_) => VHidResult::Error,
            VHidError::InvalidParameter => VHidResult::InvalidParameter,
            VHidError::NotInitialized => VHidResult::NotInitialized,
        }
    }

    /// The status code under which this error crosses the foreign interface.
    #[verifier::when_used_as_spec(spec_status)]
    pub fn status(&self) -> (r: VHidResult)
        ensures
            r == self.spec_status(),
    {
        match self {
            VHidError::EnumerationFailed => VHidResult::Error,
            VHidError::DeviceNotFound => VHidResult::DeviceNotFound,
            VHidError::ProtocolViolation => VHidResult::Error,
            VHidError::ChannelError(_) => VHidResult::Error,
            VHidError::InvalidParameter => VHidResult::InvalidParameter,
            VHidError::NotInitialized => VHidResult::NotInitialized,
        }
    }

    /// The text of this error as a sequence of characters.
    pub open spec fn spec_message(&self) -> Seq<char> {
        match self {
            VHidError::EnumerationFailed => "the set of present devices could not be obtained"@,
            VHidError::DeviceNotFound => "the bus device was not found"@,
            VHidError::ProtocolViolation => "the response of the bus is too short"@,
            VHidError::ChannelError(text) => text@,
            VHidError::InvalidParameter => "the report is absent or not of the size of a report"@,
            VHidError::NotInitialized => "the channel to the bus is not open"@,
        }
    }

    /// The text of this error; that of a channel error is the operating
    /// system's text, unchanged.
    pub fn message(&self) -> (r: String)
        ensures
            r@ == self.spec_message(),
    {
        match self {
            VHidError::EnumerationFailed => {
                "the set of present devices could not be obtained".to_owned()
            },
            VHidError::DeviceNotFound => "the bus device was not found".to_owned(),
            VHidError::ProtocolViolation => "the response of the bus is too short".to_owned(),
            VHidError::ChannelError(text) => text.as_str().to_owned(),
            VHidError::InvalidParameter => {
                "the report is absent or not of the size of a report".to_owned()
            },
            VHidError::NotInitialized => "the channel to the bus is not open".to_owned(),
        }
    }
}

/// A text as it is handed to a caller that expects a zero at its end: the
/// bytes of the text and a zero; of a text that holds a zero itself, the
/// zero alone.
pub open spec fn terminated(message: Seq<u8>) -> Seq<u8> {
    if message.contains(0u8) {
        seq![0u8]
    } else {
        message.push(0u8)
    }
}

/// What of a text goes into a caller's buffer of `size` bytes: the text with
/// its zero, cut off where the buffer ends; nothing where the buffer has no
/// room at all.
pub open spec fn buffer_content(message: Seq<u8>, size: nat) -> Seq<u8> {
    let text = terminated(message);
    if size < text.len() {
        text.subrange(0, size as int)
    } else {
        text
    }
}

/// The bytes to copy into a caller's buffer of `size` bytes for the text
/// `message`, and the number to report to the caller: one less than the
/// number of bytes copied, or zero where nothing is copied.
pub fn copy_message(message: &[u8], size: usize) -> (r: (Vec<u8>, usize))
    ensures
        r.0@ == buffer_content(message@, size as nat),
        r.1 == (if r.0@.len() == 0 {
            0
        } else {
            r.0@.len() - 1
        }),
{
    let n: usize = message.len();
    let mut out: Vec<u8> = Vec::new();
    if size == 0 {
        return (out, 0);
    }
    let mut has_zero: bool = false;
    let mut i: usize = 0;
    while i < n
        invariant
            n == message.len(),
            i <= n,
            has_zero == exists|j: int| 0 <= j < i && message@[j] == 0u8,
        decreases n - i,
    {
        if message[i] == 0 {
            has_zero = true;
        }
        i += 1;
    }
    assert(has_zero == message@.contains(0u8));
    if has_zero {
        out.push(0);
        assert(out@ =~= buffer_content(message@, size as nat));
        return (out, 0);
    }
    let mut k: usize = 0;
    while k < n && k < size
        invariant
            n == message.len(),
            k <= n,
            k <= size,
            out@ == message@.subrange(0, k as int),
        decreases n - k,
    {
        out.push(message[k]);
        assert(out@ =~= message@.subrange(0, k + 1));
        k += 1;
    }
    if k < size {
        out.push(0);
    }
    assert(out@ =~= buffer_content(message@, size as nat));
    let copied: usize = out.len();
    (out, copied - 1)
}

} // verus!
