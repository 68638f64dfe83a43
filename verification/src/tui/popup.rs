//! The input popup's state and its entry-length rule. The popup's
//! rendering lives outside the library.

use vstd::prelude::*;
use vstd::string::StrSliceExecFns;
use crate::decimal::num_digits;
use crate::decimal::count_digits;

verus! {

/// The popup widget; its rendering lives outside the library.
pub struct Popup;

/// The kind and bounds of the value a popup asks for.
#[derive(Debug, Clone, Copy, PartialEq, Eq)]
pub enum DataType {
    Integer(i32, i32),
    UnsignedInteger(u32, u32),
    Text(usize, usize),
}

/// How many characters an entry of this kind may take: the width of the
/// upper bound's decimal rendering (with its sign), or the text's own
/// maximum length.
pub open spec fn spec_max_chars(d: DataType) -> nat {
    match d {
        DataType::Integer(lower, upper) => if upper < 0 {
            1 + num_digits((-upper) as nat)
        } else {
            num_digits(upper as nat)
        },
        DataType::UnsignedInteger(lower, upper) => num_digits(upper as nat),
        DataType::Text(min, max) => max as nat,
    }
}

impl DataType {
    /// The most characters an entry of this kind may take.
    pub fn get_max_chars(&self) -> (n: usize)
        ensures
            n == spec_max_chars(*self),
    {
        match self {
            DataType::Integer(_, upper) => {
                if *upper < 0 {
                    let mag = -(*upper as i64);
                    1 + count_digits(mag as u32) as usize
                } else {
                    count_digits(*upper as u32) as usize
                }
            },
            DataType::UnsignedInteger(_, upper) => count_digits(*upper) as usize,
            DataType::Text(_, max) => *max,
        }
    }
}

/// The state of an open popup: its header, an optional description, the
/// text entered so far, and the kind of value it asks for.
#[derive(Debug)]
pub struct PopupState {
    pub header: String,
    pub description: Option<String>,
    pub entered_text: String,
    pub data: DataType,
}

impl PopupState {
    /// Whether one more character fits the entry: its length must stay
    /// under the kind's character budget.
    pub fn accepts_more(&self) -> (b: bool)
        ensures
            b == (self.entered_text@.len() < spec_max_chars(self.data)),
    {
        self.entered_text.as_str().unicode_len() < self.data.get_max_chars()
    }
}

} // verus!
