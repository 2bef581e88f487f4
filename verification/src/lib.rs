//! A receive-only client core for a streaming event-notification service.
//!
//! The crate models the session lifecycle of such a client: the transport
//! yields raw frames, the codec classifies them into envelopes, the session
//! state machine consumes envelopes and decides which registrations to issue
//! and which notifications to dispatch, and the dispatcher renders each typed
//! event for its sink.  All decision logic lives here and is verified; the
//! network itself is driven by an unverified shell around the crate.

pub mod codec;
pub mod dispatch;
pub mod envelope;
pub mod errors;
pub mod events;
pub mod laws;
pub mod run;
pub mod transport;
pub mod websocket;
