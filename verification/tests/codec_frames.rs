use eventsub_client::dispatch::dispatch_line;
use eventsub_client::errors::ClientError;
use eventsub_client::events::{EventType, TypedEvent};
use eventsub_client::websocket::{Action, SessionStatus, SubscriptionRequest, WebsocketClient};

fn welcome_frame(session_id: &str) -> String {
    format!(
        r#"{{
            "metadata": {{
                "message_id": "96a3f3b5-5dec-4eed-908e-e11ee657416c",
                "message_type": "session_welcome",
                "message_timestamp": "2022-10-19T14:56:51.634234626Z"
            }},
            "payload": {{
                "session": {{
                    "id": "{session_id}",
                    "status": "connected",
                    "connected_at": "2022-10-19T14:56:51.616329898Z",
                    "keepalive_timeout_seconds": 10,
                    "reconnect_url": null,
                    "recovery_url": null
                }}
            }}
        }}"#
    )
}

fn keepalive_frame() -> String {
    r#"{
        "metadata": {
            "message_id": "8d8e0935-0e0c-479a-8fa2-ad4c02cef742",
            "message_type": "session_keepalive",
            "message_timestamp": "2022-11-04T13:11:49.770459792Z"
        },
        "payload": {}
    }"#
    .to_owned()
}

fn follow_notification_frame() -> String {
    r#"{
        "metadata": {
            "message_id": "befa7b53-d79d-478f-86b9-120f112b044e",
            "message_type": "notification",
            "message_timestamp": "2019-11-16T10:11:12.123Z",
            "subscription_type": "channel.follow",
            "subscription_version": "1"
        },
        "payload": {
            "subscription": {
                "id": "f1c2a387-161a-49f9-a165-0f21d7a4e1c4",
                "status": "enabled",
                "type": "channel.follow",
                "version": "1",
                "cost": 1,
                "condition": {
                    "broadcaster_user_id": "12826"
                },
                "transport": {
                    "method": "websocket",
                    "session_id": "AQoQexAWVYKSTIu4ec_2VAxyuhAB"
                },
                "created_at": "2019-11-16T10:11:12.123Z"
            },
            "event": {
                "user_id": "1337",
                "user_login": "awesome_user",
                "user_name": "Awesome_User",
                "broadcaster_user_id": "12826",
                "broadcaster_user_login": "twitch",
                "broadcaster_user_name": "Twitch",
                "followed_at": "2020-07-15T18:16:11.17106713Z"
            }
        }
    }"#
    .to_owned()
}

fn client_with_one_subscription() -> WebsocketClient {
    let mut c = WebsocketClient::new();
    c.add_subscription(SubscriptionRequest {
        event_type: EventType::ChannelFollowV1,
        principal_id: "12826".to_owned(),
    });
    c
}

#[test]
fn welcome_frame_starts_registration_round() {
    let mut c = client_with_one_subscription();
    let r = c.process_frame(&welcome_frame("s-frame-1")).unwrap();
    match r {
        Action::Register { calls } => {
            assert_eq!(calls.len(), 1);
            assert_eq!(calls[0].session_id, "s-frame-1");
            assert_eq!(calls[0].principal_id, "12826");
            assert_eq!(calls[0].event_type, EventType::ChannelFollowV1);
        },
        other => panic!("expected a registration round, got {other:?}"),
    }
    assert_eq!(c.session.status, SessionStatus::Active);
    assert_eq!(c.session.id, "s-frame-1");
}

#[test]
fn keepalive_frame_is_a_no_op() {
    let mut c = client_with_one_subscription();
    c.process_frame(&welcome_frame("s1")).unwrap();
    let r = c.process_frame(&keepalive_frame()).unwrap();
    assert_eq!(r, Action::NoOp);
    assert_eq!(c.session.id, "s1");
    assert_eq!(c.session.status, SessionStatus::Active);
}

#[test]
fn notification_frame_dispatches_its_raw_payload() {
    let mut c = client_with_one_subscription();
    c.process_frame(&welcome_frame("s1")).unwrap();
    let frame = follow_notification_frame();
    let r = c.process_frame(&frame).unwrap();
    assert_eq!(r, Action::Dispatch { payload: frame });
}

#[test]
fn unparsable_frame_is_a_protocol_error() {
    let mut c = client_with_one_subscription();
    let r = c.process_frame("not an eventsub frame");
    assert_eq!(r, Err(ClientError::Protocol));
    assert!(c.is_terminal());
    assert_eq!(c.session.status, SessionStatus::Closed);
}

#[test]
fn known_kind_with_undecodable_body_is_a_protocol_error() {
    let mut c = client_with_one_subscription();
    let frame = r#"{
        "metadata": {
            "message_id": "96a3f3b5-5dec-4eed-908e-e11ee657416c",
            "message_type": "session_welcome",
            "message_timestamp": "2022-10-19T14:56:51.634234626Z"
        },
        "payload": {}
    }"#;
    let r = c.process_frame(frame);
    assert_eq!(r, Err(ClientError::Protocol));
    assert!(c.is_terminal());
}

#[test]
fn new_message_kind_is_ignored() {
    let mut c = client_with_one_subscription();
    let frame = r#"{
        "metadata": {
            "message_id": "8d8e0935-0e0c-479a-8fa2-ad4c02cef742",
            "message_type": "session_example",
            "message_timestamp": "2022-11-04T13:11:49.770459792Z"
        },
        "payload": {}
    }"#;
    let r = c.process_frame(frame).unwrap();
    assert_eq!(r, Action::NoOp);
    assert_eq!(c.session.status, SessionStatus::Pending);
}

#[test]
fn unimplemented_event_type_still_dispatches_the_fallback() {
    let mut c = client_with_one_subscription();
    c.process_frame(&welcome_frame("s1")).unwrap();
    let frame = r#"{
        "metadata": {
            "message_id": "befa7b53-d79d-478f-86b9-120f112b044e",
            "message_type": "notification",
            "message_timestamp": "2019-11-16T10:11:12.123Z",
            "subscription_type": "channel.follow",
            "subscription_version": "99"
        },
        "payload": {}
    }"#;
    let r = c.process_frame(frame).unwrap();
    assert_eq!(r, Action::Dispatch { payload: frame.to_owned() });

    let typed = TypedEvent::Unrecognized { payload: frame.to_owned() };
    assert_eq!(dispatch_line(&typed), format!("unrecognized event: {frame}"));
}

#[test]
fn unimplemented_event_type_in_a_revocation_stays_fatal() {
    let mut c = client_with_one_subscription();
    c.process_frame(&welcome_frame("s1")).unwrap();
    let frame = r#"{
        "metadata": {
            "message_id": "befa7b53-d79d-478f-86b9-120f112b044e",
            "message_type": "revocation",
            "message_timestamp": "2019-11-16T10:11:12.123Z",
            "subscription_type": "channel.follow",
            "subscription_version": "99"
        },
        "payload": {}
    }"#;
    let r = c.process_frame(frame);
    assert_eq!(r, Err(ClientError::Revoked));
    assert_eq!(c.session.status, SessionStatus::Revoked);
}
