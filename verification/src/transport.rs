//! The transport boundary: fixed connection limits and the one named
//! recoverable fault.
//!
//! The retry policy lives here as an explicit predicate: a peer reset
//! without a closing handshake is silently survived by reconnecting, and
//! every other transport fault is fatal.  Nothing else in the crate decides
//! what is retried.

use vstd::prelude::*;

verus! {

/// Upper bound on one logical message, in bytes (64 MiB).
pub const MAX_MESSAGE_BYTES: u64 = 67108864;

/// Upper bound on one transport frame, in bytes (16 MiB).
pub const MAX_FRAME_BYTES: u64 = 16777216;

/// The fixed, non-tunable connection limits.  Unmasked frames from the
/// peer are always rejected: a conforming server masks nothing towards the
/// client, so accepting them would mean accepting a misbehaving peer.
#[derive(Clone, Copy, Debug, PartialEq, Eq, Structural)]
pub struct TransportConfig {
    pub max_message_bytes: u64,
    pub max_frame_bytes: u64,
    pub accept_unmasked_frames: bool,
}

impl TransportConfig {
    /// The one configuration every connection uses.
    pub fn strict() -> (c: TransportConfig)
        ensures
            c.max_message_bytes == MAX_MESSAGE_BYTES,
            c.max_frame_bytes == MAX_FRAME_BYTES,
            !c.accept_unmasked_frames,
    {
        TransportConfig {
            max_message_bytes: MAX_MESSAGE_BYTES,
            max_frame_bytes: MAX_FRAME_BYTES,
            accept_unmasked_frames: false,
        }
    }
}

/// A low-level failure reported by the transport.
#[derive(Clone, Debug, PartialEq, Eq)]
pub enum TransportFault {
    /// The peer reset the connection without performing the closing
    /// handshake: the single allow-listed recoverable condition.
    ResetWithoutClosingHandshake,
    /// Any other transport failure, with its description.
    Other { detail: String },
}

/// The mathematical image of a transport fault.
pub enum FaultModel {
    ResetWithoutClosingHandshake,
    Other { detail: Seq<char> },
}

impl View for TransportFault {
    type V = FaultModel;

    open spec fn view(&self) -> FaultModel {
        match self {
            TransportFault::ResetWithoutClosingHandshake => FaultModel::ResetWithoutClosingHandshake,
            TransportFault::Other { detail } => FaultModel::Other { detail: detail@ },
        }
    }
}

impl DeepView for TransportFault {
    type V = FaultModel;

    open spec fn deep_view(&self) -> FaultModel {
        self.view()
    }
}

/// The recoverable-fault predicate: true exactly for the peer reset
/// without a closing handshake.
pub open spec fn recoverable(f: FaultModel) -> bool {
    f is ResetWithoutClosingHandshake
}

/// Executable form of the recoverable-fault predicate.
pub fn is_recoverable_reset(f: &TransportFault) -> (r: bool)
    ensures
        r == recoverable(f@),
{
    match f {
        TransportFault::ResetWithoutClosingHandshake => true,
        TransportFault::Other { .. } => false,
    }
}

/// What the transport manager does with a fault.
#[derive(Clone, Copy, Debug, PartialEq, Eq, Structural)]
pub enum FaultDisposition {
    /// Reconnect silently and continue the frame sequence.
    Reconnect,
    /// Propagate a fatal transport error; the client run ends.
    Fatal,
}

/// Decide a fault's disposition: reconnect exactly on the recoverable
/// reset, fail on everything else.
pub fn fault_disposition(f: &TransportFault) -> (d: FaultDisposition)
    ensures
        recoverable(f@) ==> d is Reconnect,
        !recoverable(f@) ==> d is Fatal,
{
    if is_recoverable_reset(f) {
        FaultDisposition::Reconnect
    } else {
        FaultDisposition::Fatal
    }
}

} // verus!
