//! The pure per-frame logic of the two protocol listeners: the outbound
//! client's identification handshake and its binary-frame decoding. The
//! socket loops themselves suspend on I/O and live outside the library;
//! they hand each received frame to these functions and enqueue what comes
//! back.

use vstd::prelude::*;
use vstd::string::StringExecFns;
use crate::tcode_de::spec_decode;
use crate::tcode_de::process_linear_token;
use crate::tcode_de::LinearAction;
use crate::tcode_de::LinearActionError;
use crate::usb::IoErrorKind;

verus! {

/// Why a protocol listener stops.
#[derive(Debug, Clone, Copy, PartialEq, Eq)]
pub enum ClientError {
    /// A failure inside the websocket layer itself.
    Tungstenite,
    /// A frame failed to decode; carries the decode error.
    LinearAction(LinearActionError),
    /// The command queue's receiving side is gone.
    Send,
    /// The configured endpoint is not a listenable address.
    InvalidListener,
    /// A socket I/O failure, by its kind.
    Io(IoErrorKind),
    /// A structured frame is not well-formed.
    Serde,
    /// A frame asks for something the listener does not support.
    UnsupportedAction,
}

/// The fixed identification frame the outbound client sends before it
/// processes any traffic.
pub fn handshake_frame() -> (s: String)
    ensures
        s@ == "{\"identifier\":\"UpYourEnder\",\"address\":\"2\",\"version\":0}"@,
{
    String::from_str("{\"identifier\":\"UpYourEnder\",\"address\":\"2\",\"version\":0}")
}

/// Decode one binary frame from the outbound client's stream: the final
/// trailing byte is dropped, the rest is read as a positional frame. An
/// empty frame decodes as an empty command, which the decoder rejects as
/// invalid rather than failing any other way.
pub fn intiface_process_frame(bytes: &[u8]) -> (r: Result<LinearAction, LinearActionError>)
    ensures
        r == spec_decode(
            if bytes@.len() > 0 {
                bytes@.drop_last()
            } else {
                bytes@
            },
        ),
{
    let end = if bytes.len() > 0 {
        bytes.len() - 1
    } else {
        0
    };
    let head = vstd::slice::slice_subrange(bytes, 0, end);
    proof {
        if bytes@.len() > 0 {
            assert(head@ =~= bytes@.drop_last());
        } else {
            assert(head@ =~= bytes@);
        }
    }
    process_linear_token(head)
}

} // verus!
