//! The frame codec: classify one raw text frame into an envelope.
//!
//! The wire format itself is owned by the upstream service's protocol
//! library; this module fixes what the core relies on: every text frame
//! has exactly one classification, a pure function of its characters.
//! The policy is layered:
//!
//! - a frame the protocol library parses is classified by its message
//!   kind;
//! - a well-formed notification whose event type the protocol library has
//!   no implementation for is still a notification, so the catalog
//!   adapter's fallback can dispatch it;
//! - a frame whose metadata names a message kind this client knows but
//!   which cannot be decoded is a malformed envelope, a fatal protocol
//!   violation;
//! - only a frame whose metadata names a message kind this client does
//!   not know is `Unknown`, and ignored for forward compatibility.

use vstd::prelude::*;
use twitch_api::eventsub::{Event, EventsubWebsocketData as Data, PayloadParseError};
use crate::envelope::{Envelope, EnvelopeModel};

verus! {

/// The classification the websocket parser assigns to one raw text frame,
/// with a parse failure folded to `Malformed` except for the
/// not-implemented case, which keeps the notification kind.  It depends on
/// the frame's characters alone.
pub uninterp spec fn frame_class_of(s: Seq<char>) -> EnvelopeModel;

/// The message kind named by the frame's metadata, if the frame is a JSON
/// object carrying one.  It depends on the frame's characters alone.
pub uninterp spec fn message_kind_of(s: Seq<char>) -> Option<Seq<char>>;

/// The message kinds this client knows.
pub open spec fn known_kind(k: Seq<char>) -> bool {
    ||| k == "session_welcome"@
    ||| k == "session_keepalive"@
    ||| k == "notification"@
    ||| k == "session_reconnect"@
    ||| k == "revocation"@
}

/// The full classification policy of the codec, over the two named parse
/// results.  A frame the parser maps to a notification is kept unless its
/// metadata says `revocation` (a revocation of an event type the protocol
/// library has no implementation for): a revocation must stay fatal.  A
/// frame the parser cannot decode is malformed when its metadata names a
/// known kind (or names none), and `Unknown` when it names a new one.
pub open spec fn frame_classification(s: Seq<char>) -> EnvelopeModel {
    match frame_class_of(s) {
        EnvelopeModel::Notification { payload } => if message_kind_of(s) == Some("revocation"@) {
            EnvelopeModel::Revocation
        } else {
            EnvelopeModel::Notification { payload }
        },
        EnvelopeModel::Malformed => match message_kind_of(s) {
            Some(k) => if known_kind(k) {
                EnvelopeModel::Malformed
            } else {
                EnvelopeModel::Unknown
            },
            None => EnvelopeModel::Malformed,
        },
        other => other,
    }
}

/// Relies on twitch_api's `Event::parse_websocket`: it classifies one raw
/// text frame by its message kind and carries the session identifier of a
/// welcome or reconnect advisory; the result depends on the frame text
/// alone.  A frame it parses keeps its kind, a notification keeping the
/// whole raw frame as its payload region; an `UnimplementedEvent` failure
/// (a well-formed frame whose event type the library has no implementation
/// for) keeps the notification kind the same way; every other failure is
/// the malformed classification.
#[verifier::external_body]
fn classify_text_frame(text: &str) -> (e: Envelope)
    ensures
        e@ == frame_class_of(text@),
{
    match Event::parse_websocket(text) {
        Ok(Data::Welcome { payload, .. }) => Envelope::Welcome { session_id: payload.session.id.to_string() },
        Ok(Data::Keepalive { .. }) => Envelope::Keepalive,
        Ok(Data::Notification { .. }) => Envelope::Notification { payload: text.to_owned() },
        Ok(Data::Revocation { .. }) => Envelope::Revocation,
        Ok(Data::Reconnect { payload, .. }) => Envelope::Reconnect { session_id: payload.session.id.to_string() },
        Ok(_) => Envelope::Malformed,
        Err(PayloadParseError::UnimplementedEvent { .. }) => Envelope::Notification { payload: text.to_owned() },
        Err(_) => Envelope::Malformed,
    }
}

/// Relies on serde_json's parser to read the `message_type` string out of
/// the frame's `metadata` object; the result depends on the frame text
/// alone.
#[verifier::external_body]
fn frame_message_kind(text: &str) -> (r: Option<String>)
    ensures
        r matches Some(k) ==> message_kind_of(text@) == Some(k@),
        r is None ==> message_kind_of(text@) is None,
{
    let value: serde_json::Value = match serde_json::from_str(text) { Ok(v) => v, Err(_) => return None };
    let metadata = match value.get("metadata") { Some(m) => m, None => return None };
    let kind = match metadata.get("message_type") { Some(k) => k, None => return None };
    kind.as_str().map(str::to_owned)
}

/// Whether a message-kind string is one this client knows.
fn is_known_kind(k: &String) -> (r: bool)
    ensures
        r == known_kind(k@),
{
    *k == "session_welcome".to_owned() || *k == "session_keepalive".to_owned() || *k
        == "notification".to_owned() || *k == "session_reconnect".to_owned() || *k
        == "revocation".to_owned()
}

/// Classify one raw text frame under the codec's full policy.
pub(crate) fn classify_frame(text: &str) -> (e: Envelope)
    ensures
        e@ == frame_classification(text@),
{
    match classify_text_frame(text) {
        Envelope::Notification { payload } => {
            let revocation_kind: bool = match frame_message_kind(text) {
                Some(k) => k == "revocation".to_owned(),
                None => false,
            };
            if revocation_kind {
                Envelope::Revocation
            } else {
                Envelope::Notification { payload }
            }
        },
        Envelope::Malformed => {
            match frame_message_kind(text) {
                Some(k) => if is_known_kind(&k) {
                    Envelope::Malformed
                } else {
                    Envelope::Unknown
                },
                None => Envelope::Malformed,
            }
        },
        other => other,
    }
}

} // verus!
