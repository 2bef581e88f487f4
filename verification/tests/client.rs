use eventsub_client::dispatch::dispatch_line;
use eventsub_client::envelope::Envelope;
use eventsub_client::errors::ClientError;
use eventsub_client::events::{EventType, TypedEvent};
use eventsub_client::run::{run_events, TransportEvent};
use eventsub_client::transport::TransportFault;
use eventsub_client::websocket::{
    Action, RegistrationCall, SessionStatus, SubscriptionRequest, WebsocketClient,
};

fn sub(event_type: EventType, principal_id: &str) -> SubscriptionRequest {
    SubscriptionRequest { event_type, principal_id: principal_id.to_owned() }
}

fn client_with(subs: Vec<SubscriptionRequest>) -> WebsocketClient {
    let mut c = WebsocketClient::new();
    for s in subs {
        c.add_subscription(s);
    }
    c
}

fn welcome(id: &str) -> Envelope {
    Envelope::Welcome { session_id: id.to_owned() }
}

#[test]
fn new_client_starts_pending() {
    let c = WebsocketClient::new();
    assert_eq!(c.session.status, SessionStatus::Pending);
    assert_eq!(c.session.id, "");
    assert!(c.subscriptions.is_empty());
    assert!(!c.is_terminal());
}

#[test]
fn welcome_registers_every_subscription() {
    let mut c = client_with(vec![
        sub(EventType::ChannelPointsCustomRewardRedemptionAddV1, "42"),
        sub(EventType::ChannelFollowV2, "42"),
        sub(EventType::ChannelRaidV1, "42"),
    ]);
    let r = c.step(welcome("s1")).unwrap();
    let expected = vec![
        RegistrationCall {
            event_type: EventType::ChannelPointsCustomRewardRedemptionAddV1,
            principal_id: "42".to_owned(),
            session_id: "s1".to_owned(),
        },
        RegistrationCall {
            event_type: EventType::ChannelFollowV2,
            principal_id: "42".to_owned(),
            session_id: "s1".to_owned(),
        },
        RegistrationCall {
            event_type: EventType::ChannelRaidV1,
            principal_id: "42".to_owned(),
            session_id: "s1".to_owned(),
        },
    ];
    assert_eq!(r, Action::Register { calls: expected });
    assert_eq!(c.session.status, SessionStatus::Active);
    assert_eq!(c.session.id, "s1");
}

#[test]
fn welcome_with_no_subscriptions_registers_nothing() {
    let mut c = WebsocketClient::new();
    let r = c.step(welcome("s1")).unwrap();
    assert_eq!(r, Action::Register { calls: vec![] });
    assert_eq!(c.session.status, SessionStatus::Active);
}

#[test]
fn empty_event_sequence_changes_nothing() {
    let c = client_with(vec![sub(EventType::ChannelCheerV1, "1")]);
    let out = run_events(c, vec![]);
    assert_eq!(out.error, None);
    assert_eq!(out.reconnects, 0);
    assert!(out.registrations.is_empty());
    assert!(out.dispatched.is_empty());
    assert_eq!(out.client.session.status, SessionStatus::Pending);
}

#[test]
fn keepalive_is_silent() {
    let mut c = client_with(vec![sub(EventType::ChannelCheerV1, "9")]);
    c.step(welcome("s1")).unwrap();
    let r = c.step(Envelope::Keepalive).unwrap();
    assert_eq!(r, Action::NoOp);
    assert_eq!(c.session.status, SessionStatus::Active);
    assert_eq!(c.session.id, "s1");
}

#[test]
fn unknown_kind_ignored() {
    let mut c = WebsocketClient::new();
    let r = c.step(Envelope::Unknown).unwrap();
    assert_eq!(r, Action::NoOp);
    assert_eq!(c.session.status, SessionStatus::Pending);
}

#[test]
fn malformed_envelope_is_protocol_error() {
    let mut c = client_with(vec![sub(EventType::ChannelBanV1, "7")]);
    c.step(welcome("s1")).unwrap();
    let r = c.step(Envelope::Malformed);
    assert_eq!(r, Err(ClientError::Protocol));
    assert!(c.is_terminal());
    assert_eq!(c.session.status, SessionStatus::Closed);
}

#[test]
fn notification_before_welcome_is_protocol_error() {
    let mut c = WebsocketClient::new();
    let r = c.step(Envelope::Notification { payload: "p".to_owned() });
    assert_eq!(r, Err(ClientError::Protocol));
    assert!(c.is_terminal());
    assert_eq!(c.session.status, SessionStatus::Closed);
}

#[test]
fn notification_while_active_dispatches() {
    let mut c = client_with(vec![sub(EventType::ChannelBanV1, "7")]);
    c.step(welcome("s1")).unwrap();
    let r = c.step(Envelope::Notification { payload: "the payload".to_owned() }).unwrap();
    assert_eq!(r, Action::Dispatch { payload: "the payload".to_owned() });
}

#[test]
fn revocation_is_fatal() {
    let mut c = client_with(vec![sub(EventType::ChannelBanV1, "7")]);
    c.step(welcome("s1")).unwrap();
    let r = c.step(Envelope::Revocation);
    assert_eq!(r, Err(ClientError::Revoked));
    assert_eq!(c.session.status, SessionStatus::Revoked);
    assert!(c.is_terminal());
}

#[test]
fn registration_outcome_success_changes_nothing() {
    let mut c = client_with(vec![sub(EventType::ChannelCheerV1, "5")]);
    c.step(welcome("s1")).unwrap();
    assert!(c.registration_outcome(true).is_ok());
    assert_eq!(c.session.status, SessionStatus::Active);
}

#[test]
fn registration_outcome_failure_is_fatal() {
    let mut c = client_with(vec![sub(EventType::ChannelCheerV1, "5")]);
    c.step(welcome("s1")).unwrap();
    let r = c.registration_outcome(false);
    assert_eq!(r, Err(ClientError::Registration));
    assert_eq!(c.session.status, SessionStatus::Closed);
}

#[test]
fn scenario_welcome_keepalive_redemption() {
    let c = client_with(vec![sub(EventType::ChannelPointsCustomRewardRedemptionAddV1, "777")]);
    let events = vec![
        TransportEvent::Frame(welcome("s1")),
        TransportEvent::Frame(Envelope::Keepalive),
        TransportEvent::Frame(Envelope::Notification { payload: "P".to_owned() }),
    ];
    let out = run_events(c, events);
    assert_eq!(out.error, None);
    assert_eq!(out.reconnects, 0);
    assert_eq!(out.registrations.len(), 1);
    assert_eq!(out.registrations[0].session_id, "s1");
    assert_eq!(
        out.registrations[0].event_type,
        EventType::ChannelPointsCustomRewardRedemptionAddV1
    );
    assert_eq!(out.dispatched, vec!["P".to_owned()]);

    let typed = TypedEvent::Recognized {
        tag: EventType::ChannelPointsCustomRewardRedemptionAddV1,
        payload: out.dispatched[0].clone(),
    };
    assert_eq!(dispatch_line(&typed), "Event::ChannelPointsCustomRewardRedemptionAddV1: P");
}

#[test]
fn scenario_reconnect_runs_second_round() {
    let c = client_with(vec![sub(EventType::ChannelFollowV1, "13")]);
    let events = vec![
        TransportEvent::Frame(welcome("s1")),
        TransportEvent::Frame(Envelope::Reconnect { session_id: "s2".to_owned() }),
        TransportEvent::Frame(Envelope::Notification { payload: "P".to_owned() }),
    ];
    let out = run_events(c, events);
    assert_eq!(out.error, None);
    assert_eq!(out.registrations.len(), 2);
    assert_eq!(out.registrations[0].session_id, "s1");
    assert_eq!(out.registrations[1].session_id, "s2");
    assert_eq!(out.dispatched, vec!["P".to_owned()]);
    assert_eq!(out.client.session.id, "s2");
    assert_eq!(out.client.session.status, SessionStatus::Active);
}

#[test]
fn welcome_then_revocation_registers_then_stops() {
    let c = client_with(vec![
        sub(EventType::ChannelPollBeginV1, "3"),
        sub(EventType::ChannelPollEndV1, "3"),
    ]);
    let events = vec![
        TransportEvent::Frame(welcome("s1")),
        TransportEvent::Frame(Envelope::Revocation),
        TransportEvent::Frame(Envelope::Notification { payload: "late".to_owned() }),
    ];
    let out = run_events(c, events);
    assert_eq!(out.error, Some(ClientError::Revoked));
    assert_eq!(out.registrations.len(), 2);
    assert!(out.registrations.iter().all(|r| r.session_id == "s1"));
    assert!(out.dispatched.is_empty());
    assert_eq!(out.client.session.status, SessionStatus::Revoked);
}

#[test]
fn reset_fault_reconnects_once_and_resumes() {
    let c = client_with(vec![sub(EventType::StreamOnlineV1, "8")]);
    let events = vec![
        TransportEvent::Frame(welcome("s1")),
        TransportEvent::Fault(TransportFault::ResetWithoutClosingHandshake),
        TransportEvent::Frame(welcome("s2")),
        TransportEvent::Frame(Envelope::Notification { payload: "after".to_owned() }),
    ];
    let out = run_events(c, events);
    assert_eq!(out.error, None);
    assert_eq!(out.reconnects, 1);
    assert_eq!(out.registrations.len(), 2);
    assert_eq!(out.registrations[1].session_id, "s2");
    assert_eq!(out.dispatched, vec!["after".to_owned()]);
}

#[test]
fn other_fault_halts_the_run() {
    let c = client_with(vec![sub(EventType::StreamOfflineV1, "8")]);
    let events = vec![
        TransportEvent::Frame(welcome("s1")),
        TransportEvent::Fault(TransportFault::Other { detail: "tls failure".to_owned() }),
        TransportEvent::Frame(Envelope::Notification { payload: "late".to_owned() }),
    ];
    let out = run_events(c, events);
    assert_eq!(out.error, Some(ClientError::Transport));
    assert_eq!(out.reconnects, 0);
    assert_eq!(out.registrations.len(), 1);
    assert!(out.dispatched.is_empty());
    assert_eq!(out.client.session.status, SessionStatus::Closed);
}

#[test]
fn notification_while_reconnecting_is_protocol_error() {
    let c = client_with(vec![sub(EventType::ChannelRaidV1, "2")]);
    let events = vec![
        TransportEvent::Frame(welcome("s1")),
        TransportEvent::Fault(TransportFault::ResetWithoutClosingHandshake),
        TransportEvent::Frame(Envelope::Notification { payload: "early".to_owned() }),
    ];
    let out = run_events(c, events);
    assert_eq!(out.error, Some(ClientError::Protocol));
    assert_eq!(out.reconnects, 1);
    assert!(out.dispatched.is_empty());
}
