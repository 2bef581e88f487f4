//! Inbound message envelopes: the unit the frame codec produces.
//!
//! An envelope is the classification of one raw transport frame.  The
//! payload of a notification stays opaque here; its decoding belongs to the
//! catalog adapter, which runs only for notifications.

use vstd::prelude::*;

verus! {

/// One classified inbound frame.
#[derive(Clone, Debug, PartialEq, Eq)]
pub enum Envelope {
    /// The first message of a new session, carrying the session identifier
    /// the upstream assigned.
    Welcome { session_id: String },
    /// A liveness-only signal requiring no action.
    Keepalive,
    /// One occurrence of a subscribed event; the payload region is decoded
    /// later by the catalog adapter.
    Notification { payload: String },
    /// The upstream withdrew authorization; terminal.
    Revocation,
    /// The upstream asks the client to migrate to a fresh session.
    Reconnect { session_id: String },
    /// A message kind this client does not know; ignored, so that new
    /// kinds the upstream introduces never crash the client.
    Unknown,
    /// A frame that claimed a known message kind but could not be decoded:
    /// a malformed envelope, which the state machine treats as a fatal
    /// protocol violation.
    Malformed,
}

/// The mathematical image of an envelope: strings become char sequences.
pub enum EnvelopeModel {
    Welcome { session_id: Seq<char> },
    Keepalive,
    Notification { payload: Seq<char> },
    Revocation,
    Reconnect { session_id: Seq<char> },
    Unknown,
    Malformed,
}

impl View for Envelope {
    type V = EnvelopeModel;

    open spec fn view(&self) -> EnvelopeModel {
        match self {
            Envelope::Welcome { session_id } => EnvelopeModel::Welcome { session_id: session_id@ },
            Envelope::Keepalive => EnvelopeModel::Keepalive,
            Envelope::Notification { payload } => EnvelopeModel::Notification { payload: payload@ },
            Envelope::Revocation => EnvelopeModel::Revocation,
            Envelope::Reconnect { session_id } => EnvelopeModel::Reconnect { session_id: session_id@ },
            Envelope::Unknown => EnvelopeModel::Unknown,
            Envelope::Malformed => EnvelopeModel::Malformed,
        }
    }
}

impl DeepView for Envelope {
    type V = EnvelopeModel;

    open spec fn deep_view(&self) -> EnvelopeModel {
        self.view()
    }
}

} // verus!
