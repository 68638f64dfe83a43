//! State and decision logic behind the operator surface: the service
//! status bar, the configuration option table, and the input popup.
//! Rendering and key handling live outside the library.

use vstd::prelude::*;

pub mod bar;
pub mod config_option;
pub mod popup;

verus! {

/// The option-table row selected after a step down: one past the last
/// option row (the start/stop row) wraps back to the top.
pub fn next_row_index(selected: Option<usize>, item_count: usize) -> (i: usize)
    ensures
        i == match selected {
            Some(j) => if j >= item_count {
                0usize
            } else {
                (j + 1) as usize
            },
            None => 0usize,
        },
{
    match selected {
        Some(j) => if j >= item_count {
            0
        } else {
            j + 1
        },
        None => 0,
    }
}

/// The option-table row selected after a step up: the top row wraps to the
/// start/stop row one past the last option.
pub fn previous_row_index(selected: Option<usize>, item_count: usize) -> (i: usize)
    ensures
        i == match selected {
            Some(j) => if j == 0 {
                item_count
            } else {
                (j - 1) as usize
            },
            None => 0usize,
        },
{
    match selected {
        Some(j) => if j == 0 {
            item_count
        } else {
            j - 1
        },
        None => 0,
    }
}

} // verus!
