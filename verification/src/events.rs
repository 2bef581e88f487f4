//! Typed events: the closed set of event types the client can observe.
//!
//! The catalog adapter that turns a raw notification payload into one of
//! these variants is an external collaborator; the core only consumes the
//! result.  `TypedEvent::Unrecognized` is the forward-compatibility
//! fallback: a payload the adapter could not classify is still dispatched,
//! never dropped and never a crash.

use vstd::prelude::*;

verus! {

/// One tag per supported event type.
#[derive(Clone, Copy, Debug, PartialEq, Eq, Structural)]
pub enum EventType {
    ChannelPointsCustomRewardAddV1,
    ChannelCharityCampaignDonateV1,
    ChannelCharityCampaignProgressV1,
    ChannelCharityCampaignStartV1,
    ChannelCharityCampaignStopV1,
    ChannelUpdateV1,
    ChannelUpdateV2,
    ChannelFollowV1,
    ChannelFollowV2,
    ChannelSubscribeV1,
    ChannelCheerV1,
    ChannelBanV1,
    ChannelUnbanV1,
    ChannelPointsCustomRewardUpdateV1,
    ChannelPointsCustomRewardRemoveV1,
    ChannelPointsCustomRewardRedemptionAddV1,
    ChannelPointsCustomRewardRedemptionUpdateV1,
    ChannelPollBeginV1,
    ChannelPollProgressV1,
    ChannelPollEndV1,
    ChannelPredictionBeginV1,
    ChannelPredictionProgressV1,
    ChannelPredictionLockV1,
    ChannelPredictionEndV1,
    ChannelRaidV1,
    ChannelShieldModeBeginV1,
    ChannelShieldModeEndV1,
    ChannelShoutoutCreateV1,
    ChannelShoutoutReceiveV1,
    ChannelGoalBeginV1,
    ChannelGoalProgressV1,
    ChannelGoalEndV1,
    ChannelHypeTrainBeginV1,
    ChannelHypeTrainProgressV1,
    ChannelHypeTrainEndV1,
    StreamOnlineV1,
    StreamOfflineV1,
    UserUpdateV1,
    UserAuthorizationGrantV1,
    UserAuthorizationRevokeV1,
    ChannelSubscriptionEndV1,
    ChannelSubscriptionGiftV1,
    ChannelSubscriptionMessageV1,
}

/// A classified notification: either a known event type wrapping its
/// payload, or the fallback variant carrying the raw payload unchanged.
#[derive(Clone, Debug, PartialEq, Eq)]
pub enum TypedEvent {
    Recognized { tag: EventType, payload: String },
    Unrecognized { payload: String },
}

} // verus!
