//! Reports given as the words of a command line.

use crate::number::{decimal_i8, hex_u8, parse_decimal_i8, parse_hex_u8};
use crate::text::texts;
use crate::types::{KeyboardInput, MouseInput};
use vstd::prelude::*;

verus! {

/// Why the words of a command line give no report.
#[derive(Debug, Clone, Copy, PartialEq, Eq, Structural)]
pub enum ReportError {
    /// There are too few words or too many.
    Usage,
    /// The word for the buttons is no signed byte.
    Button,
    /// The word for the movement in x is no signed byte.
    X,
    /// The word for the movement in y is no signed byte.
    Y,
    /// The word for the wheel is no signed byte.
    Wheel,
    /// The word for the key of this slot is no byte.
    Key(usize),
    /// The word for the modifiers is no byte.
    Modifiers,
}

/// The mouse report that four words give: the buttons, the movement in x and
/// in y, and the wheel, each a signed byte in base 10. The first word that
/// is none decides the error.
pub open spec fn mouse_report_of(words: Seq<Seq<char>>) -> Result<MouseInput, ReportError> {
    if words.len() != 4 {
        Err(ReportError::Usage)
    } else {
        match (
            decimal_i8(words[0]),
            decimal_i8(words[1]),
            decimal_i8(words[2]),
            decimal_i8(words[3]),
        ) {
            (None, _, _, _) => Err(ReportError::Button),
            (Some(_), None, _, _) => Err(ReportError::X),
            (Some(_), Some(_), None, _) => Err(ReportError::Y),
            (Some(_), Some(_), Some(_), None) => Err(ReportError::Wheel),
            (Some(button), Some(x), Some(y), Some(wheel)) => Ok(
                MouseInput { button, x, y, wheel, reserved: 0 },
            ),
        }
    }
}

/// The position of the first word from `from` on that is no byte in base 16.
pub open spec fn first_bad_byte(words: Seq<Seq<char>>, from: int) -> Option<int>
    decreases words.len() - from,
{
    if from < 0 || from >= words.len() {
        None
    } else if hex_u8(words[from]) is None {
        Some(from)
    } else {
        first_bad_byte(words, from + 1)
    }
}

/// The key of a slot: the word behind the modifiers' that stands for it, or
/// zero where the words end before.
pub open spec fn key_of(words: Seq<Seq<char>>, slot: int) -> u8 {
    if 0 <= slot && slot + 1 < words.len() {
        match hex_u8(words[slot + 1]) {
            Some(key) => key,
            None => 0,
        }
    } else {
        0
    }
}

/// The keyboard report that one to seven words give: the modifiers, then up
/// to six keys, each a byte in base 16 with or without `0x` before it. The
/// keys are read first; the first word that is no byte decides the error.
pub open spec fn keyboard_report_of(words: Seq<Seq<char>>) -> Result<KeyboardInput, ReportError> {
    if words.len() < 1 || words.len() > 7 {
        Err(ReportError::Usage)
    } else {
        match first_bad_byte(words, 1) {
            Some(i) => Err(ReportError::Key((i - 1) as usize)),
            None => match hex_u8(words[0]) {
                None => Err(ReportError::Modifiers),
                Some(modifiers) => Ok(
                    KeyboardInput {
                        modifiers,
                        reserved: 0,
                        keys: [
                            key_of(words, 0),
                            key_of(words, 1),
                            key_of(words, 2),
                            key_of(words, 3),
                            key_of(words, 4),
                            key_of(words, 5),
                        ],
                    },
                ),
            },
        }
    }
}

/// Reads a mouse report from the words behind the command.
pub fn mouse_report_from_words(words: &[String]) -> (r: Result<MouseInput, ReportError>)
    ensures
        r == mouse_report_of(texts(words@)),
{
    if words.len() != 4 {
        return Err(ReportError::Usage);
    }
    let button = match parse_decimal_i8(words[0].as_str()) {
        Some(value) => value,
        None => {
            return Err(ReportError::Button);
        },
    };
    let x = match parse_decimal_i8(words[1].as_str()) {
        Some(value) => value,
        None => {
            return Err(ReportError::X);
        },
    };
    let y = match parse_decimal_i8(words[2].as_str()) {
        Some(value) => value,
        None => {
            return Err(ReportError::Y);
        },
    };
    let wheel = match parse_decimal_i8(words[3].as_str()) {
        Some(value) => value,
        None => {
            return Err(ReportError::Wheel);
        },
    };
    Ok(MouseInput { button, x, y, wheel, reserved: 0 })
}

/// Reads a keyboard report from the words behind the command.
pub fn keyboard_report_from_words(words: &[String]) -> (r: Result<KeyboardInput, ReportError>)
    ensures
        r == keyboard_report_of(texts(words@)),
{
    let n: usize = words.len();
    if n < 1 || n > 7 {
        return Err(ReportError::Usage);
    }
    let ghost all = texts(words@);
    let mut keys: [u8; 6] = [0; 6];
    let mut i: usize = 1;
    while i < n
        invariant
            1 <= i <= n <= 7,
            n == words.len(),
            all == texts(words@),
            first_bad_byte(all, 1) == first_bad_byte(all, i as int),
            forall|slot: int| 0 <= slot < i - 1 ==> keys@[slot] == key_of(all, slot),
            forall|slot: int| i - 1 <= slot < 6 ==> keys@[slot] == 0,
        decreases n - i,
    {
        match parse_hex_u8(words[i].as_str()) {
            Some(key) => {
                keys[i - 1] = key;
            },
            None => {
                return Err(ReportError::Key(i - 1));
            },
        }
        i += 1;
    }
    match parse_hex_u8(words[0].as_str()) {
        None => Err(ReportError::Modifiers),
        Some(modifiers) => {
            let report = KeyboardInput { modifiers, reserved: 0, keys };
            proof {
                let spelled = keyboard_report_of(all)->Ok_0;
                assert(report.keys@ =~= spelled.keys@);
                assert(report.keys =~= spelled.keys);
            }
            Ok(report)
        },
    }
}

} // verus!
