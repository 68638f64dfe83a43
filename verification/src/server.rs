//! The orchestrator's decision logic: how the terminal error of a run is
//! classified into the messages the operator surface shows, and what the
//! orchestrator does once the race between the writer and the listener
//! settles. Spawning, racing and cancelling the tasks is I/O scheduling
//! and lives outside the library.

use vstd::prelude::*;
use vstd::string::StringExecFns;
use crate::usb::GCodeError;
use crate::usb::IoErrorKind;
use crate::websocket::ClientError;

verus! {

/// A terminal error of one orchestration run, by its failing subsystem.
#[derive(Debug, Clone, Copy, PartialEq, Eq)]
pub enum ServerError {
    /// The protocol listener failed; carries its error.
    Websocket(ClientError),
    /// A spawned task could not be joined.
    Tokio,
    /// The actuator writer failed; carries its error.
    Gcode(GCodeError),
}

/// The classified, user-facing report of a terminal error: which subsystem
/// stopped, with the message shown for it.
#[derive(Debug, Clone, PartialEq, Eq)]
pub enum ErrorKind {
    Websocket(String),
    GCode(String),
}

/// How a terminal error classifies: a listener failure is a websocket
/// problem (an unexpected end of stream names the endpoint), a writer
/// failure is a device problem (permission and presence of the device are
/// told apart), and a lost task reads as a dead connection.
pub open spec fn classified(e: ServerError, k: ErrorKind) -> bool {
    match e {
        ServerError::Websocket(ce) => match ce {
            ClientError::Io(IoErrorKind::UnexpectedEof) => k matches ErrorKind::Websocket(s)
                && s@ == "Invalid URI"@,
            _ => k matches ErrorKind::Websocket(s) && s@ == "Error"@,
        },
        ServerError::Gcode(ge) => match ge {
            GCodeError::Io(IoErrorKind::PermissionDenied) => k matches ErrorKind::GCode(s) && s@
                == "No permission!"@,
            GCodeError::Io(IoErrorKind::NotFound) => k matches ErrorKind::GCode(s) && s@
                == "Not connected!"@,
            _ => k matches ErrorKind::GCode(s) && s@ == "Error"@,
        },
        ServerError::Tokio => k matches ErrorKind::Websocket(s) && s@ == "Not connected!"@,
    }
}

/// Classify one terminal error for the operator surface.
pub fn classify_error(e: &ServerError) -> (k: ErrorKind)
    ensures
        classified(*e, k),
{
    match e {
        ServerError::Websocket(ce) => match ce {
            ClientError::Io(IoErrorKind::UnexpectedEof) => ErrorKind::Websocket(
                String::from_str("Invalid URI"),
            ),
            _ => ErrorKind::Websocket(String::from_str("Error")),
        },
        ServerError::Gcode(ge) => match ge {
            GCodeError::Io(IoErrorKind::PermissionDenied) => ErrorKind::GCode(
                String::from_str("No permission!"),
            ),
            GCodeError::Io(IoErrorKind::NotFound) => ErrorKind::GCode(
                String::from_str("Not connected!"),
            ),
            _ => ErrorKind::GCode(String::from_str("Error")),
        },
        ServerError::Tokio => ErrorKind::Websocket(String::from_str("Not connected!")),
    }
}

/// What the orchestrator does once the race between the writer and the
/// listener settles: whether the shared cancellation signal is set, and
/// the one status event published.
#[derive(Debug)]
pub struct RunOutcome {
    pub cancel: bool,
    pub event: Option<ErrorKind>,
}

/// Settle one finished run: a failure sets the cancellation signal and
/// publishes exactly one classified status event; a clean finish sets
/// nothing and publishes nothing.
pub fn run_outcome(result: &Result<(), ServerError>) -> (o: RunOutcome)
    ensures
        o.cancel <==> result is Err,
        result is Ok ==> o.event is None,
        result matches Err(e) ==> o.event matches Some(k) && classified(*e, k),
{
    match result {
        Ok(_) => RunOutcome { cancel: false, event: None },
        Err(e) => RunOutcome { cancel: true, event: Some(classify_error(e)) },
    }
}

} // verus!
