//! The error taxonomy of the client.
//!
//! Only one failure condition is ever recovered from (the transport reset
//! handled inside `run`); every value of `ClientError` is fatal and unwinds
//! the whole client run.

use vstd::prelude::*;

verus! {

/// A fatal condition that terminates a client run.
#[derive(Clone, Copy, Debug, PartialEq, Eq, Structural)]
pub enum ClientError {
    /// The connection could not be established or was lost in a way not
    /// covered by the one recoverable reset condition.
    Transport,
    /// An inbound message violated the session-state contract, such as a
    /// notification arriving while no session is active.
    Protocol,
    /// The upstream service withdrew the subscription or session.
    Revoked,
    /// A subscription-registration call failed during the handshake.
    Registration,
}

impl ClientError {
    /// A short human-readable name for the error, for the shell's reporting.
    pub fn describe(&self) -> (r: &'static str)
        ensures
            *self is Transport ==> r@ == "transport failure"@,
            *self is Protocol ==> r@ == "protocol violation"@,
            *self is Revoked ==> r@ == "subscription revoked"@,
            *self is Registration ==> r@ == "subscription registration failed"@,
    {
        match self {
            ClientError::Transport => "transport failure",
            ClientError::Protocol => "protocol violation",
            ClientError::Revoked => "subscription revoked",
            ClientError::Registration => "subscription registration failed",
        }
    }
}

} // verus!
