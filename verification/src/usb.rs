//! The motion-command synthesizer and the actuator writer's step logic.
//!
//! A movement's magnitude is read as a decimal fraction (dividing by the
//! next power of ten), scaled by the configured stroke, and offset into the
//! physical travel window; a pacing directive accompanies it only when the
//! movement's modifier differs from the previous one. Distances and feed
//! rates are carried in hundredths, matching the two decimal places the
//! device instruction text uses.

use vstd::prelude::*;
use vstd::arithmetic::mul::lemma_mul_upper_bound;
use vstd::arithmetic::div_mod::lemma_div_is_ordered;
use vstd::arithmetic::div_mod::lemma_div_multiples_vanish;
use vstd::utf8::is_ascii_chars;
use vstd::string::StringExecFns;
use crate::config::MachineConfig;
use crate::decimal::ascii_bytes;
use crate::decimal::pow10;
use crate::decimal::num_digits;
use crate::decimal::count_digits;
use crate::decimal::pow10_u64;
use crate::decimal::lemma_below_pow10_of_digits;
use crate::decimal::centi_chars;
use crate::decimal::centi_to_dec;
use crate::decimal::lemma_centi_chars_ascii;
use crate::decimal::string_ascii_bytes;
use crate::tcode_de::Action;
use crate::tcode_de::LinearAction;
use crate::tcode_de::LinearModifier;

verus! {

/// The distance, in hundredths of a millimetre, that a magnitude maps to:
/// the magnitude read as a decimal fraction of one, scaled by the stroke.
pub open spec fn spec_distance_centi(magnitude: nat, max_movement: nat) -> nat {
    if magnitude == 0 {
        0
    } else {
        max_movement * magnitude * 100 / pow10(num_digits(magnitude))
    }
}

/// A zero magnitude always maps to distance zero, whatever the stroke.
pub proof fn lemma_zero_magnitude_zero_distance(max_movement: nat)
    ensures
        spec_distance_centi(0, max_movement) == 0,
{
}

/// The mapped distance never exceeds the configured stroke: the travel
/// window is respected for every magnitude.
pub proof fn lemma_distance_within_stroke(magnitude: nat, max_movement: nat)
    ensures
        spec_distance_centi(magnitude, max_movement) <= max_movement * 100,
{
    if magnitude != 0 {
        let p = pow10(num_digits(magnitude));
        lemma_below_pow10_of_digits(magnitude);
        let a = (max_movement * 100) as int;
        assert(max_movement * magnitude * 100 == a * magnitude) by (nonlinear_arith)
            requires
                a == (max_movement * 100) as int,
        ;
        assert(a * magnitude <= a * p) by (nonlinear_arith)
            requires
                magnitude <= p,
                a >= 0,
        ;
        lemma_div_is_ordered(a * magnitude, a * p, p as int);
        lemma_div_multiples_vanish(a, p as int);
        assert(a * p == p * a) by (nonlinear_arith);
    }
}

impl LinearAction {
    /// The distance on the configured stroke, in hundredths of a
    /// millimetre, that this movement's magnitude maps to.
    pub fn magnitude_to_distance(&self, max_distance: u32) -> (d: u64)
        ensures
            d == spec_distance_centi(self.magnitude as nat, max_distance as nat),
            d <= max_distance as nat * 100,
    {
        proof {
            lemma_distance_within_stroke(self.magnitude as nat, max_distance as nat);
        }
        if self.magnitude == 0 {
            return 0;
        }
        let digits = count_digits(self.magnitude);
        let p = pow10_u64(digits);
        proof {
            lemma_mul_upper_bound(max_distance as int, 0xffffffff, self.magnitude as int, 0xffffffff);
        }
        let raw = (max_distance as u128) * (self.magnitude as u128) * 100;
        let d = raw / (p as u128);
        proof {
            assert(d == spec_distance_centi(self.magnitude as nat, max_distance as nat));
        }
        d as u64
    }
}

/// The I/O failure kinds that the orchestrator tells apart when it
/// classifies a terminal error for the operator surface.
#[derive(Debug, Clone, Copy, PartialEq, Eq)]
pub enum IoErrorKind {
    UnexpectedEof,
    PermissionDenied,
    NotFound,
    Other,
}

/// Why the actuator writer stops.
#[derive(Debug, Clone, Copy, PartialEq, Eq)]
pub enum GCodeError {
    /// Failure to open, write to or flush the device, by its kind.
    Io(IoErrorKind),
    /// A serial-port failure while opening the device.
    Serial,
    /// The motion kind cannot be synthesized into a device instruction;
    /// carries that kind.
    UnsupportedMovement(Action),
}

/// The device-native instruction for one movement: an absolute position,
/// and a feed-rate directive only when the pacing changed. Both are counted
/// in hundredths (of a millimetre, and of a unit per minute).
#[derive(Debug, Clone, Copy, PartialEq, Eq)]
pub struct Instruction {
    pub position_centi: u64,
    pub pacing_centi: Option<u64>,
}

/// The movement a fresh writer pretends to have issued before its first
/// command: resting at zero with no pacing.
pub open spec fn default_previous() -> LinearAction {
    LinearAction { action: Action::Move, id: 0, magnitude: 0, modifier: None }
}

/// The feed rate, in hundredths of a unit per minute, that covers `delta`
/// hundredths of a millimetre in `ms` milliseconds. A zero duration yields
/// a zero directive.
pub open spec fn spec_time_pacing(delta: nat, ms: nat) -> nat {
    if ms == 0 {
        0
    } else {
        delta * 60000 / ms
    }
}

/// The absolute difference of two distances.
pub open spec fn spec_delta(a: nat, b: nat) -> nat {
    if a >= b {
        (a - b) as nat
    } else {
        (b - a) as nat
    }
}

/// The instruction synthesized for a movement against the previously
/// issued one: the magnitude's distance offset to the far end of the
/// travel window, and a pacing directive only when the modifier differs
/// from the previous movement's in kind or value.
pub open spec fn spec_synthesize(
    config: MachineConfig,
    action: LinearAction,
    previous: Option<LinearAction>,
) -> Result<Instruction, GCodeError>
    recommends
        config.wf(),
{
    if action.action != Action::Move {
        Err(GCodeError::UnsupportedMovement(action.action))
    } else {
        let last = match previous {
            Some(p) => p,
            None => default_previous(),
        };
        let dist = spec_distance_centi(action.magnitude as nat, config.max_movement as nat);
        let position = ((config.throw - config.max_movement) * 100 + dist) as u64;
        let pacing = match action.modifier {
            None => None,
            Some(LinearModifier::Speed(v)) => if last.modifier == Some(
                LinearModifier::Speed(v),
            ) {
                None
            } else {
                Some((v * 60000) as u64)
            },
            Some(LinearModifier::Time(ms)) => if last.modifier == Some(LinearModifier::Time(ms)) {
                None
            } else {
                let prev_dist = spec_distance_centi(
                    last.magnitude as nat,
                    config.max_movement as nat,
                );
                Some(spec_time_pacing(spec_delta(dist, prev_dist), ms as nat) as u64)
            },
        };
        Ok(Instruction { position_centi: position, pacing_centi: pacing })
    }
}

/// Synthesize the device instruction for one movement.
///
/// Fails exactly when the movement's kind is not a plain move; otherwise
/// the returned instruction holds the scaled, offset position and the
/// pacing directive the rules call for.
pub fn synthesize(
    config: &MachineConfig,
    action: &LinearAction,
    previous: Option<LinearAction>,
) -> (r: Result<Instruction, GCodeError>)
    requires
        config.wf(),
    ensures
        r == spec_synthesize(*config, *action, previous),
{
    if !matches!(action.action, Action::Move) {
        return Err(GCodeError::UnsupportedMovement(action.action));
    }
    let last = match previous {
        Some(p) => p,
        None => LinearAction { action: Action::Move, id: 0, magnitude: 0, modifier: None },
    };
    let dist = action.magnitude_to_distance(config.max_movement);
    let offset = ((config.throw - config.max_movement) as u64) * 100;
    let position = offset + dist;
    let pacing: Option<u64> = match action.modifier {
        None => None,
        Some(LinearModifier::Speed(v)) => {
            let same = match last.modifier {
                Some(LinearModifier::Speed(w)) => w == v,
                _ => false,
            };
            if same {
                None
            } else {
                Some((v as u64) * 60000)
            }
        },
        Some(LinearModifier::Time(ms)) => {
            let same = match last.modifier {
                Some(LinearModifier::Time(w)) => w == ms,
                _ => false,
            };
            if same {
                None
            } else {
                let prev_dist = last.magnitude_to_distance(config.max_movement);
                let delta = if dist >= prev_dist {
                    dist - prev_dist
                } else {
                    prev_dist - dist
                };
                proof {
                    assert(delta <= 0xffffffffu64 * 100);
                }
                let raw = (delta as u128) * 60000;
                let pace = if ms == 0 {
                    0u64
                } else {
                    (raw / (ms as u128)) as u64
                };
                proof {
                    if ms != 0 {
                        vstd::arithmetic::div_mod::lemma_div_is_ordered_by_denominator(
                            raw as int,
                            1,
                            ms as int,
                        );
                    }
                }
                Some(pace)
            }
        },
    };
    Ok(Instruction { position_centi: position, pacing_centi: pacing })
}
/// Issuing a movement whose explicit speed equals the previous movement's
/// produces no pacing directive: the device keeps its feed rate.
pub proof fn lemma_same_speed_no_pacing(
    config: MachineConfig,
    prev: LinearAction,
    action: LinearAction,
    v: u32,
)
    requires
        action.action == Action::Move,
        action.modifier == Some(LinearModifier::Speed(v)),
        prev.modifier == Some(LinearModifier::Speed(v)),
    ensures
        spec_synthesize(config, action, Some(prev)) matches Ok(inst) && inst.pacing_centi is None,
{
}

/// Issuing a movement whose explicit speed differs from the previous
/// movement's produces exactly one pacing directive, worth six hundred
/// times the speed in units per minute.
pub proof fn lemma_changed_speed_pacing(
    config: MachineConfig,
    prev: LinearAction,
    action: LinearAction,
    v: u32,
)
    requires
        action.action == Action::Move,
        action.modifier == Some(LinearModifier::Speed(v)),
        prev.modifier != Some(LinearModifier::Speed(v)),
    ensures
        spec_synthesize(config, action, Some(prev)) matches Ok(inst) && inst.pacing_centi == Some(
            ((v * 600) * 100) as u64,
        ),
{
    assert(v * 60000 == (v * 600) * 100);
}

/// A movement of any kind but a plain move is never synthesized: it fails
/// naming that kind, whatever the configuration and history.
pub proof fn lemma_non_move_unsupported(
    config: MachineConfig,
    action: LinearAction,
    previous: Option<LinearAction>,
)
    requires
        action.action != Action::Move,
    ensures
        spec_synthesize(config, action, previous) == Err::<Instruction, GCodeError>(
            GCodeError::UnsupportedMovement(action.action),
        ),
{
}

/// A synthesized position always lies inside the physical travel window:
/// between the fixed offset and the end of the throw.
pub proof fn lemma_position_within_window(
    config: MachineConfig,
    action: LinearAction,
    previous: Option<LinearAction>,
)
    requires
        config.wf(),
        spec_synthesize(config, action, previous) is Ok,
    ensures
        (spec_synthesize(config, action, previous)->Ok_0).position_centi >= (config.throw
            - config.max_movement) * 100,
        (spec_synthesize(config, action, previous)->Ok_0).position_centi <= config.throw * 100,
{
    lemma_distance_within_stroke(action.magnitude as nat, config.max_movement as nat);
}

/// The text of an instruction: a positioning line, then a pacing line only
/// when a directive is present.
pub open spec fn spec_instruction_chars(inst: Instruction) -> Seq<char> {
    "G1 X"@ + centi_chars(inst.position_centi as nat) + " \n"@ + match inst.pacing_centi {
        Some(p) => "F"@ + centi_chars(p as nat) + "\n"@,
        None => Seq::<char>::empty(),
    }
}

/// Render an instruction as the ASCII text sent to the device.
pub fn render_instruction(inst: &Instruction) -> (s: String)
    ensures
        s@ == spec_instruction_chars(*inst),
        is_ascii_chars(s@),
{
    proof {
        reveal_strlit("G1 X");
        reveal_strlit(" \n");
        reveal_strlit("F");
        reveal_strlit("\n");
        lemma_centi_chars_ascii(inst.position_centi as nat);
        if inst.pacing_centi is Some {
            lemma_centi_chars_ascii(inst.pacing_centi->0 as nat);
        }
    }
    let mut out = String::from_str("G1 X");
    let pos = centi_to_dec(inst.position_centi);
    out.append(pos.as_str());
    out.append(" \n");
    match inst.pacing_centi {
        Some(p) => {
            out.append("F");
            let pace = centi_to_dec(p);
            out.append(pace.as_str());
            out.append("\n");
        },
        None => {},
    }
    proof {
        assert(out@ =~= spec_instruction_chars(*inst));
        assert(is_ascii_chars(out@));
    }
    out
}

/// Build the device bytes for one movement: the synthesized instruction,
/// rendered. Fails exactly when synthesis does.
pub fn create_gcode(
    config: &MachineConfig,
    action: &LinearAction,
    last_action: Option<LinearAction>,
) -> (r: Result<Vec<u8>, GCodeError>)
    requires
        config.wf(),
    ensures
        match (r, spec_synthesize(*config, *action, last_action)) {
            (Ok(bytes), Ok(inst)) => bytes@ == ascii_bytes(spec_instruction_chars(inst)),
            (Err(e), Err(f)) => e == f,
            _ => false,
        },
{
    let inst = match synthesize(config, action, last_action) {
        Ok(inst) => inst,
        Err(e) => {
            return Err(e);
        },
    };
    let text = render_instruction(&inst);
    Ok(string_ascii_bytes(&text))
}

/// A queued request for the actuator writer: a movement to synthesize, or
/// one of the two fixed directives.
#[derive(Debug, Clone, Copy, PartialEq, Eq)]
pub enum Command {
    Movement(LinearAction),
    Home,
    Halt,
}

/// What one writer step decides: the bytes to put on the serial line, the
/// text reported to the operator surface, and the synthesizer state to
/// carry into the next step.
#[derive(Debug)]
pub struct WriterEffect {
    pub bytes: Vec<u8>,
    pub report: String,
    pub previous: Option<LinearAction>,
}

/// Decide one step of the actuator writer.
///
/// A movement is synthesized against the held previous movement and, on
/// success, becomes that state; the homing and emergency-stop commands
/// write fixed lines and leave the state alone. A synthesis failure is
/// returned and ends the writer.
pub fn writer_step(config: &MachineConfig, previous: Option<LinearAction>, command: &Command) -> (r:
    Result<WriterEffect, GCodeError>)
    requires
        config.wf(),
    ensures
        match *command {
            Command::Home => r matches Ok(e) && e.bytes@ == ascii_bytes("G28 X\n"@) && e.report@
                == "G28 X"@ && e.previous == previous,
            Command::Halt => r matches Ok(e) && e.bytes@ == ascii_bytes("M112\n"@) && e.report@
                == "M112"@ && e.previous == previous,
            Command::Movement(a) => match spec_synthesize(*config, a, previous) {
                Ok(inst) => r matches Ok(e) && e.bytes@ == ascii_bytes(spec_instruction_chars(inst))
                    && e.report@ == spec_instruction_chars(inst) && e.previous == Some(a),
                Err(err) => r matches Err(e) && e == err,
            },
        },
{
    match command {
        Command::Movement(action) => {
            let inst = match synthesize(config, action, previous) {
                Ok(inst) => inst,
                Err(e) => {
                    return Err(e);
                },
            };
            let report = render_instruction(&inst);
            let bytes = string_ascii_bytes(&report);
            Ok(WriterEffect { bytes, report, previous: Some(*action) })
        },
        Command::Home => {
            proof {
                reveal_strlit("G28 X\n");
                reveal_strlit("G28 X");
            }
            let report = String::from_str("G28 X");
            let line = String::from_str("G28 X\n");
            let bytes = string_ascii_bytes(&line);
            Ok(WriterEffect { bytes, report, previous })
        },
        Command::Halt => {
            proof {
                reveal_strlit("M112\n");
                reveal_strlit("M112");
            }
            let report = String::from_str("M112");
            let line = String::from_str("M112\n");
            let bytes = string_ascii_bytes(&line);
            Ok(WriterEffect { bytes, report, previous })
        },
    }
}

} // verus!