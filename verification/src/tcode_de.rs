//! Decoder for the positional byte-string wire format: a frame of the
//! shape `<opcode><single-digit-id><magnitude>[<marker><value>]`, where the
//! opcode selects the motion kind and an optional marker byte introduces a
//! time or speed modifier.

use vstd::prelude::*;
use vstd::utf8::valid_utf8;
use crate::decimal::is_digit_byte;
use crate::decimal::spec_parse_u32;
use crate::decimal::parse_u32_region;
use crate::encoding::is_valid_utf8_region;

verus! {

/// The kind of motion a decoded frame asks for.
#[derive(Debug, Clone, Copy, PartialEq, Eq)]
pub enum Action {
    Move,
    Rotate,
    Vibrate,
    Auxiliary,
}

/// A pacing qualifier on a movement: an explicit duration in milliseconds,
/// or an explicit speed in units per hundred milliseconds.
#[derive(Debug, Clone, Copy, PartialEq, Eq)]
pub enum LinearModifier {
    Time(u32),
    Speed(u32),
}

/// A decoded, provider-agnostic description of a requested movement.
#[derive(Debug, Clone, Copy, PartialEq, Eq)]
pub struct LinearAction {
    pub action: Action,
    pub id: u32,
    pub magnitude: u32,
    pub modifier: Option<LinearModifier>,
}

/// Why a frame failed to decode.
#[derive(Debug, Clone, Copy, PartialEq, Eq)]
pub enum LinearActionError {
    /// The id byte is not a decimal digit; carries that byte.
    InvalidID(char),
    /// The leading opcode byte is not one of `l`/`r`/`v`/`a` in either
    /// case; carries that byte.
    InvalidOpcode(char),
    /// The frame is too short to carry a command.
    CommandInvalid,
    /// A magnitude or modifier region is not valid UTF-8 text.
    Utf8,
    /// A magnitude or modifier region is not a decimal number that fits.
    ParseInt,
}

/// The opcode bytes: `l`, `r`, `v`, `a`, case-insensitive.
pub open spec fn is_opcode_byte(b: u8) -> bool {
    ||| b == 108 || b == 76  // 'l' / 'L'
    ||| b == 114 || b == 82  // 'r' / 'R'
    ||| b == 118 || b == 86  // 'v' / 'V'
    ||| b == 97 || b == 65  // 'a' / 'A'
}

/// The motion kind an opcode byte selects.
pub open spec fn opcode_action(b: u8) -> Action
    recommends
        is_opcode_byte(b),
{
    if b == 108 || b == 76 {
        Action::Move
    } else if b == 114 || b == 82 {
        Action::Rotate
    } else if b == 118 || b == 86 {
        Action::Vibrate
    } else {
        Action::Auxiliary
    }
}

/// The modifier marker bytes: `i`, `s`, case-insensitive.
pub open spec fn is_marker_byte(b: u8) -> bool {
    b == 105 || b == 73 || b == 115 || b == 83
}

/// Whether a marker byte selects a time modifier (`i`/`I`) rather than a
/// speed modifier (`s`/`S`).
pub open spec fn is_time_marker(b: u8) -> bool {
    b == 105 || b == 73
}

/// Index of the first modifier marker at or after `from`, if any.
pub open spec fn first_marker(s: Seq<u8>, from: int) -> Option<int>
    decreases s.len() - from
        when 0 <= from <= s.len()
{
    if from >= s.len() {
        None
    } else if is_marker_byte(s[from]) {
        Some(from)
    } else {
        first_marker(s, from + 1)
    }
}

/// How a magnitude or modifier region reads as a number: the bytes must be
/// UTF-8 text, and that text must parse as an unsigned decimal integer.
pub open spec fn spec_parse_field(s: Seq<u8>) -> Result<u32, LinearActionError> {
    if !valid_utf8(s) {
        Err(LinearActionError::Utf8)
    } else {
        match spec_parse_u32(s) {
            Some(v) => Ok(v),
            None => Err(LinearActionError::ParseInt),
        }
    }
}

/// The meaning of a positional byte-string frame.
pub open spec fn spec_decode(s: Seq<u8>) -> Result<LinearAction, LinearActionError> {
    if s.len() < 3 {
        Err(LinearActionError::CommandInvalid)
    } else if !is_opcode_byte(s[0]) {
        Err(LinearActionError::InvalidOpcode(s[0] as char))
    } else if !is_digit_byte(s[1]) {
        Err(LinearActionError::InvalidID(s[1] as char))
    } else {
        let action = opcode_action(s[0]);
        let id = (s[1] - 48) as u32;
        match first_marker(s, 0) {
            Some(m) => match spec_parse_field(s.subrange(2, m)) {
                Err(e) => Err(e),
                Ok(mag) => match spec_parse_field(s.subrange(m + 1, s.len() as int)) {
                    Err(e) => Err(e),
                    Ok(v) => Ok(
                        LinearAction {
                            action,
                            id,
                            magnitude: mag,
                            modifier: Some(
                                if is_time_marker(s[m]) {
                                    LinearModifier::Time(v)
                                } else {
                                    LinearModifier::Speed(v)
                                },
                            ),
                        },
                    ),
                },
            },
            None => match spec_parse_field(s.subrange(2, s.len() as int)) {
                Err(e) => Err(e),
                Ok(mag) => Ok(LinearAction { action, id, magnitude: mag, modifier: None }),
            },
        }
    }
}

proof fn lemma_first_marker_none(s: Seq<u8>, from: int)
    requires
        0 <= from <= s.len(),
        forall|j: int| from <= j < s.len() ==> !is_marker_byte(#[trigger] s[j]),
    ensures
        first_marker(s, from) is None,
    decreases s.len() - from,
{
    if from < s.len() {
        lemma_first_marker_none(s, from + 1);
    }
}

proof fn lemma_first_marker_found(s: Seq<u8>, from: int, m: int)
    requires
        0 <= from <= m < s.len(),
        is_marker_byte(s[m]),
        forall|j: int| from <= j < m ==> !is_marker_byte(#[trigger] s[j]),
    ensures
        first_marker(s, from) == Some(m),
    decreases m - from,
{
    if from < m {
        lemma_first_marker_found(s, from + 1, m);
    }
}

/// Read a magnitude or modifier region as a number, per `spec_parse_field`.
fn parse_field(bytes: &[u8], from: usize, to: usize) -> (r: Result<u32, LinearActionError>)
    requires
        from <= to <= bytes@.len(),
    ensures
        r == spec_parse_field(bytes@.subrange(from as int, to as int)),
{
    if !is_valid_utf8_region(bytes, from, to) {
        return Err(LinearActionError::Utf8);
    }
    match parse_u32_region(bytes, from, to) {
        Some(v) => Ok(v),
        None => Err(LinearActionError::ParseInt),
    }
}

/// Decode one positional byte-string frame into a movement description.
///
/// A frame under three bytes is rejected outright; the opcode and id bytes
/// are then checked in order; the rest of the frame is split at the first
/// modifier marker, if any, and each region must read as an unsigned
/// decimal number.
#[verifier::loop_isolation(false)]
pub fn process_linear_token(bytes: &[u8]) -> (r: Result<LinearAction, LinearActionError>)
    ensures
        r == spec_decode(bytes@),
{
    let n = bytes.len();
    if n < 3 {
        return Err(LinearActionError::CommandInvalid);
    }
    let b0 = bytes[0];
    let action = if b0 == 108 || b0 == 76 {
        Action::Move
    } else if b0 == 114 || b0 == 82 {
        Action::Rotate
    } else if b0 == 118 || b0 == 86 {
        Action::Vibrate
    } else if b0 == 97 || b0 == 65 {
        Action::Auxiliary
    } else {
        return Err(LinearActionError::InvalidOpcode(b0 as char));
    };
    let b1 = bytes[1];
    if b1 < 48 || b1 > 57 {
        return Err(LinearActionError::InvalidID(b1 as char));
    }
    let id = (b1 - 48) as u32;

    let mut m: usize = 0;
    let mut marker: Option<usize> = None;
    while m < n
        invariant
            0 <= m <= n == bytes@.len(),
            marker is None,
            forall|j: int| 0 <= j < m ==> !is_marker_byte(#[trigger] bytes@[j]),
        decreases n - m,
    {
        let b = bytes[m];
        if b == 105 || b == 73 || b == 115 || b == 83 {
            marker = Some(m);
            break ;
        }
        m = m + 1;
    }

    match marker {
        Some(m) => {
            proof {
                lemma_first_marker_found(bytes@, 0, m as int);
                // The opcode and id bytes are never markers, so the split
                // point lies past them.
                assert(!is_marker_byte(bytes@[0]));
                assert(!is_marker_byte(bytes@[1]));
            }
            let magnitude = match parse_field(bytes, 2, m) {
                Ok(v) => v,
                Err(e) => {
                    return Err(e);
                },
            };
            let value = match parse_field(bytes, m + 1, n) {
                Ok(v) => v,
                Err(e) => {
                    return Err(e);
                },
            };
            let bm = bytes[m];
            let modifier = if bm == 105 || bm == 73 {
                LinearModifier::Time(value)
            } else {
                LinearModifier::Speed(value)
            };
            Ok(LinearAction { action, id, magnitude, modifier: Some(modifier) })
        },
        None => {
            proof {
                lemma_first_marker_none(bytes@, 0);
            }
            let magnitude = match parse_field(bytes, 2, n) {
                Ok(v) => v,
                Err(e) => {
                    return Err(e);
                },
            };
            Ok(LinearAction { action, id, magnitude, modifier: None })
        },
    }
}

/// A frame shorter than three bytes always fails as an invalid command,
/// whatever its bytes hold.
pub proof fn lemma_short_frame_rejected(s: Seq<u8>)
    requires
        s.len() < 3,
    ensures
        spec_decode(s) == Err::<LinearAction, LinearActionError>(LinearActionError::CommandInvalid),
{
}

/// A frame whose leading byte is not a recognized opcode fails naming that
/// exact byte, whatever follows it.
pub proof fn lemma_unknown_opcode_rejected(s: Seq<u8>)
    requires
        s.len() >= 3,
        !is_opcode_byte(s[0]),
    ensures
        spec_decode(s) == Err::<LinearAction, LinearActionError>(
            LinearActionError::InvalidOpcode(s[0] as char),
        ),
{
}

} // verus!

