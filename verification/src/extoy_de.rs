//! The tagged structured wire format: a frame carries either a speed
//! request or a position request. Only position requests are actionable;
//! their duration is rescaled from the protocol's base sampling frequency
//! to the device loop's actual frequency before becoming a movement.

use vstd::prelude::*;
use crate::tcode_de::Action;
use crate::tcode_de::LinearAction;
use crate::tcode_de::LinearModifier;

verus! {

/// One decoded frame of the tagged structured format.
#[derive(Debug, Clone, Copy, PartialEq, Eq)]
pub enum ExtoyPacket {
    Speed { speed: u32, upper: u32, lower: u32 },
    Position { duration: u32, position: u32 },
}

/// The sampling frequency the protocol's durations assume.
pub const BASE_FREQUENCY: u32 = 10;

/// The sampling frequency the device loop actually runs at.
pub const ACTUAL_FREQUENCY: u32 = 50;

/// A duration rescaled by the ratio of the base to the actual frequency.
pub open spec fn spec_rescaled_duration(duration: nat) -> nat {
    duration * (BASE_FREQUENCY as nat) / (ACTUAL_FREQUENCY as nat)
}

/// The movement a position request maps to: a plain move on axis zero, its
/// magnitude capped at ninety-nine, paced by the rescaled duration.
pub open spec fn spec_position_action(position: u32, duration: u32) -> LinearAction {
    LinearAction {
        action: Action::Move,
        id: 0,
        magnitude: if position < 99 {
            position
        } else {
            99
        },
        modifier: Some(LinearModifier::Time(spec_rescaled_duration(duration as nat) as u32)),
    }
}

/// Turn one decoded frame into a movement. A position request maps per
/// `spec_position_action`; a speed request is unsupported and yields
/// nothing, which the caller logs and drops.
pub fn process_extoy_packet(packet: &ExtoyPacket) -> (r: Option<LinearAction>)
    ensures
        match *packet {
            ExtoyPacket::Position { duration, position } => r == Some(
                spec_position_action(position, duration),
            ),
            ExtoyPacket::Speed { .. } => r is None,
        },
{
    match packet {
        ExtoyPacket::Position { duration, position } => {
            let scaled = ((*duration as u64) * (BASE_FREQUENCY as u64)) / (ACTUAL_FREQUENCY
                as u64);
            let magnitude = if *position < 99 {
                *position
            } else {
                99
            };
            Some(
                LinearAction {
                    action: Action::Move,
                    id: 0,
                    magnitude,
                    modifier: Some(LinearModifier::Time(scaled as u32)),
                },
            )
        },
        ExtoyPacket::Speed { .. } => None,
    }
}

} // verus!
