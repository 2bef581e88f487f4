//! The dispatcher: one generic handler keyed by event-type tag.
//!
//! Every handler in the logging sink does the same thing — emit one line
//! naming the event type and its payload — so the dispatcher is a single
//! rendering function over a label table, with a fallback branch for
//! unrecognized events.  Adding a new event type means adding one table
//! entry, not a new handler.

use vstd::prelude::*;
use vstd::string::StringExecFns;
use crate::events::{EventType, TypedEvent};

verus! {

/// The label the sink prints for a given event-type tag.
pub open spec fn label_of(tag: EventType) -> Seq<char> {
    match tag {
        EventType::ChannelPointsCustomRewardAddV1 => "channel point redeemed"@,
        EventType::ChannelCharityCampaignDonateV1 => "Event::ChannelCharityCampaignDonateV1"@,
        EventType::ChannelCharityCampaignProgressV1 => "Event::ChannelCharityCampaignProgressV1"@,
        EventType::ChannelCharityCampaignStartV1 => "Event::ChannelCharityCampaignStartV1"@,
        EventType::ChannelCharityCampaignStopV1 => "Event::ChannelCharityCampaignStopV1"@,
        EventType::ChannelUpdateV1 => "Event::ChannelUpdateV1"@,
        EventType::ChannelUpdateV2 => "Event::ChannelUpdateV2"@,
        EventType::ChannelFollowV1 => "Event::ChannelFollowV1"@,
        EventType::ChannelFollowV2 => "Event::ChannelFollowV2"@,
        EventType::ChannelSubscribeV1 => "Event::ChannelSubscribeV1"@,
        EventType::ChannelCheerV1 => "Event::ChannelCheerV1"@,
        EventType::ChannelBanV1 => "Event::ChannelBanV1"@,
        EventType::ChannelUnbanV1 => "Event::ChannelUnbanV1"@,
        EventType::ChannelPointsCustomRewardUpdateV1 => "Event::ChannelPointsCustomRewardUpdateV1"@,
        EventType::ChannelPointsCustomRewardRemoveV1 => "Event::ChannelPointsCustomRewardRemoveV1"@,
        EventType::ChannelPointsCustomRewardRedemptionAddV1 => "Event::ChannelPointsCustomRewardRedemptionAddV1"@,
        EventType::ChannelPointsCustomRewardRedemptionUpdateV1 => "Event::ChannelPointsCustomRewardRedemptionUpdateV1"@,
        EventType::ChannelPollBeginV1 => "Event::ChannelPollBeginV1"@,
        EventType::ChannelPollProgressV1 => "Event::ChannelPollProgressV1"@,
        EventType::ChannelPollEndV1 => "Event::ChannelPollEndV1"@,
        EventType::ChannelPredictionBeginV1 => "Event::ChannelPredictionBeginV1"@,
        EventType::ChannelPredictionProgressV1 => "Event::ChannelPredictionProgressV1"@,
        EventType::ChannelPredictionLockV1 => "Event::ChannelPredictionLockV1"@,
        EventType::ChannelPredictionEndV1 => "Event::ChannelPredictionEndV1"@,
        EventType::ChannelRaidV1 => "Event::ChannelRaidV1"@,
        EventType::ChannelShieldModeBeginV1 => "Event::ChannelShieldModeBeginV1"@,
        EventType::ChannelShieldModeEndV1 => "Event::ChannelShieldModeEndV1"@,
        EventType::ChannelShoutoutCreateV1 => "Event::ChannelShoutoutCreateV1"@,
        EventType::ChannelShoutoutReceiveV1 => "Event::ChannelShoutoutReceiveV1"@,
        EventType::ChannelGoalBeginV1 => "Event::ChannelGoalBeginV1"@,
        EventType::ChannelGoalProgressV1 => "Event::ChannelGoalProgressV1"@,
        EventType::ChannelGoalEndV1 => "Event::ChannelGoalEndV1"@,
        EventType::ChannelHypeTrainBeginV1 => "Event::ChannelHypeTrainBeginV1"@,
        EventType::ChannelHypeTrainProgressV1 => "Event::ChannelHypeTrainProgressV1"@,
        EventType::ChannelHypeTrainEndV1 => "Event::ChannelHypeTrainEndV1"@,
        EventType::StreamOnlineV1 => "Event::StreamOnlineV1"@,
        EventType::StreamOfflineV1 => "Event::StreamOfflineV1"@,
        EventType::UserUpdateV1 => "Event::UserUpdateV1"@,
        EventType::UserAuthorizationGrantV1 => "Event::UserAuthorizationGrantV1"@,
        EventType::UserAuthorizationRevokeV1 => "Event::UserAuthorizationRevokeV1"@,
        EventType::ChannelSubscriptionEndV1 => "Event::ChannelSubscriptionEndV1"@,
        EventType::ChannelSubscriptionGiftV1 => "Event::ChannelSubscriptionGiftV1"@,
        EventType::ChannelSubscriptionMessageV1 => "Event::ChannelSubscriptionMessageV1"@,
    }
}

/// The label of the fallback branch for unrecognized events.
pub open spec fn fallback_label() -> Seq<char> {
    "unrecognized event"@
}

/// The exact line the dispatcher hands to the sink for a typed event.
pub open spec fn rendered_line(e: TypedEvent) -> Seq<char> {
    match e {
        TypedEvent::Recognized { tag, payload } => label_of(tag) + ": "@ + payload@,
        TypedEvent::Unrecognized { payload } => fallback_label() + ": "@ + payload@,
    }
}

/// The registry lookup: the label under which a tag's events are reported.
pub fn event_label(tag: EventType) -> (r: &'static str)
    ensures
        r@ == label_of(tag),
{
    match tag {
        EventType::ChannelPointsCustomRewardAddV1 => "channel point redeemed",
        EventType::ChannelCharityCampaignDonateV1 => "Event::ChannelCharityCampaignDonateV1",
        EventType::ChannelCharityCampaignProgressV1 => "Event::ChannelCharityCampaignProgressV1",
        EventType::ChannelCharityCampaignStartV1 => "Event::ChannelCharityCampaignStartV1",
        EventType::ChannelCharityCampaignStopV1 => "Event::ChannelCharityCampaignStopV1",
        EventType::ChannelUpdateV1 => "Event::ChannelUpdateV1",
        EventType::ChannelUpdateV2 => "Event::ChannelUpdateV2",
        EventType::ChannelFollowV1 => "Event::ChannelFollowV1",
        EventType::ChannelFollowV2 => "Event::ChannelFollowV2",
        EventType::ChannelSubscribeV1 => "Event::ChannelSubscribeV1",
        EventType::ChannelCheerV1 => "Event::ChannelCheerV1",
        EventType::ChannelBanV1 => "Event::ChannelBanV1",
        EventType::ChannelUnbanV1 => "Event::ChannelUnbanV1",
        EventType::ChannelPointsCustomRewardUpdateV1 => "Event::ChannelPointsCustomRewardUpdateV1",
        EventType::ChannelPointsCustomRewardRemoveV1 => "Event::ChannelPointsCustomRewardRemoveV1",
        EventType::ChannelPointsCustomRewardRedemptionAddV1 => "Event::ChannelPointsCustomRewardRedemptionAddV1",
        EventType::ChannelPointsCustomRewardRedemptionUpdateV1 => "Event::ChannelPointsCustomRewardRedemptionUpdateV1",
        EventType::ChannelPollBeginV1 => "Event::ChannelPollBeginV1",
        EventType::ChannelPollProgressV1 => "Event::ChannelPollProgressV1",
        EventType::ChannelPollEndV1 => "Event::ChannelPollEndV1",
        EventType::ChannelPredictionBeginV1 => "Event::ChannelPredictionBeginV1",
        EventType::ChannelPredictionProgressV1 => "Event::ChannelPredictionProgressV1",
        EventType::ChannelPredictionLockV1 => "Event::ChannelPredictionLockV1",
        EventType::ChannelPredictionEndV1 => "Event::ChannelPredictionEndV1",
        EventType::ChannelRaidV1 => "Event::ChannelRaidV1",
        EventType::ChannelShieldModeBeginV1 => "Event::ChannelShieldModeBeginV1",
        EventType::ChannelShieldModeEndV1 => "Event::ChannelShieldModeEndV1",
        EventType::ChannelShoutoutCreateV1 => "Event::ChannelShoutoutCreateV1",
        EventType::ChannelShoutoutReceiveV1 => "Event::ChannelShoutoutReceiveV1",
        EventType::ChannelGoalBeginV1 => "Event::ChannelGoalBeginV1",
        EventType::ChannelGoalProgressV1 => "Event::ChannelGoalProgressV1",
        EventType::ChannelGoalEndV1 => "Event::ChannelGoalEndV1",
        EventType::ChannelHypeTrainBeginV1 => "Event::ChannelHypeTrainBeginV1",
        EventType::ChannelHypeTrainProgressV1 => "Event::ChannelHypeTrainProgressV1",
        EventType::ChannelHypeTrainEndV1 => "Event::ChannelHypeTrainEndV1",
        EventType::StreamOnlineV1 => "Event::StreamOnlineV1",
        EventType::StreamOfflineV1 => "Event::StreamOfflineV1",
        EventType::UserUpdateV1 => "Event::UserUpdateV1",
        EventType::UserAuthorizationGrantV1 => "Event::UserAuthorizationGrantV1",
        EventType::UserAuthorizationRevokeV1 => "Event::UserAuthorizationRevokeV1",
        EventType::ChannelSubscriptionEndV1 => "Event::ChannelSubscriptionEndV1",
        EventType::ChannelSubscriptionGiftV1 => "Event::ChannelSubscriptionGiftV1",
        EventType::ChannelSubscriptionMessageV1 => "Event::ChannelSubscriptionMessageV1",
    }
}

/// Dispatch one typed event: resolve its handler through the label table
/// and produce the exact line the sink reports.  An unrecognized event
/// takes the fallback branch; no event ever fails to dispatch.
pub fn dispatch_line(e: &TypedEvent) -> (r: String)
    ensures
        r@ == rendered_line(*e),
{
    match e {
        TypedEvent::Recognized { tag, payload } => {
            let mut line = event_label(*tag).to_owned();
            line.append(": ");
            line.append(payload.as_str());
            line
        },
        TypedEvent::Unrecognized { payload } => {
            let mut line = "unrecognized event".to_owned();
            line.append(": ");
            line.append(payload.as_str());
            line
        },
    }
}

} // verus!
