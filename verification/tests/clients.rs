//! Tests of the subscription registry and the two session clients.

use hyperion::eventsub::{
    ClientError, EventSubClient, SessionPayload, WebSocketMessage, WebSocketSession,
};
use hyperion::registry::{Subscription, SubscriptionRegistry};
use hyperion::seventv::{FrameAction, FramePayload, SeventTvClient};

fn sub(id: &str, kind: &str, condition: &str) -> Subscription {
    Subscription { id: id.to_string(), kind: kind.to_string(), condition: condition.to_string() }
}

fn welcome(id: &str) -> WebSocketMessage {
    WebSocketMessage::Welcome(SessionPayload {
        session: WebSocketSession { id: id.to_string(), reconnect_url: None },
    })
}

#[test]
fn registry_insert_overwrites_same_key() {
    let mut reg = SubscriptionRegistry::new();
    let d1 = sub("id1", "kind", "{\"a\":1}");
    let d2 = sub("id2", "kind", "{\"a\":2}");
    reg.insert("chan:kind".to_string(), d1);
    reg.insert("chan:kind".to_string(), d2);
    assert_eq!(reg.len(), 1);
    let removed = reg.remove("chan:kind").expect("present");
    assert_eq!(removed, sub("id2", "kind", "{\"a\":2}"));
    assert_eq!(reg.len(), 0);
    assert_eq!(reg.remove("chan:kind"), None);
}

#[test]
fn registry_removes_all_with_prefix() {
    let mut reg = SubscriptionRegistry::new();
    reg.insert("chan:a".to_string(), sub("1", "a", "{}"));
    reg.insert("chan:b".to_string(), sub("2", "b", "{}"));
    reg.insert("other:a".to_string(), sub("3", "a", "{}"));
    let removed = reg.remove_all_with_prefix("chan:");
    assert_eq!(removed.len(), 2);
    let mut keys: Vec<String> = removed.iter().map(|(k, _)| k.clone()).collect();
    keys.sort();
    assert_eq!(keys, vec!["chan:a".to_string(), "chan:b".to_string()]);
    assert_eq!(reg.len(), 1);
    assert!(reg.remove("other:a").is_some());
}

#[test]
fn registry_drain_empties_and_returns_everything() {
    let mut reg = SubscriptionRegistry::new();
    reg.insert("a:x".to_string(), sub("1", "x", "{}"));
    reg.insert("b:y".to_string(), sub("2", "y", "{}"));
    let drained = reg.snapshot_and_drain();
    assert_eq!(drained.len(), 2);
    assert_eq!(reg.len(), 0);
}

#[test]
fn fresh_welcome_with_empty_registry_issues_one_subscribe() {
    let mut client = EventSubClient::new("42".to_string(), "me".to_string());
    let outcome = client.handle_message(welcome("s1"));
    assert_eq!(outcome.subscribe.len(), 1);
    assert_eq!(outcome.subscribe[0].channel, "me");
    assert_eq!(outcome.subscribe[0].kind, "user.update");
    assert_eq!(outcome.subscribe[0].condition, "{\"user_id\":\"42\"}");
    assert!(outcome.forward.is_none());
    assert!(outcome.reconnect_url.is_none());
    assert_eq!(client.session_id, Some("s1".to_string()));
}

#[test]
fn reconnect_welcome_issues_no_subscribes() {
    let mut client = EventSubClient::new("42".to_string(), "me".to_string());
    let _ = client.handle_message(welcome("s1"));
    client.record_subscription("chan", "channel.update", "{}".to_string(), "r1".to_string());

    let outcome = client.handle_message(WebSocketMessage::Reconnect(SessionPayload {
        session: WebSocketSession {
            id: "s1".to_string(),
            reconnect_url: Some("wss://new.example".to_string()),
        },
    }));
    assert_eq!(outcome.reconnect_url, Some("wss://new.example".to_string()));
    assert_eq!(outcome.subscribe.len(), 0);

    let outcome = client.handle_message(welcome("s2"));
    assert_eq!(outcome.subscribe.len(), 0);
    assert_eq!(client.session_id, Some("s2".to_string()));
}

#[test]
fn cold_start_restores_tracked_subscriptions() {
    let mut client = EventSubClient::new("42".to_string(), "me".to_string());
    let _ = client.handle_message(welcome("s1"));
    client.record_subscription("chan", "channel.update", "{\"b\":1}".to_string(), "r1".to_string());
    client.record_subscription("me", "user.update", "{\"u\":42}".to_string(), "r2".to_string());

    // a later welcome outside a handoff is treated as a cold start again
    let outcome = client.handle_message(welcome("s3"));
    assert_eq!(outcome.subscribe.len(), 2);
    assert_eq!(outcome.subscribe[0].kind, "user.update");
    assert_eq!(outcome.subscribe[1].channel, "chan");
    assert_eq!(outcome.subscribe[1].kind, "channel.update");
    assert_eq!(outcome.subscribe[1].condition, "{\"b\":1}");
}

#[test]
fn notification_is_forwarded_verbatim() {
    let mut client = EventSubClient::new("42".to_string(), "me".to_string());
    let payload = hyperion::eventsub::NotificationPayload {
        subscription: sub("r1", "channel.update", "{}"),
        event: "{\"title\":\"x\"}".to_string(),
    };
    let expected = hyperion::eventsub::NotificationPayload {
        subscription: sub("r1", "channel.update", "{}"),
        event: "{\"title\":\"x\"}".to_string(),
    };
    let outcome = client.handle_message(WebSocketMessage::Notification(payload));
    assert_eq!(outcome.forward, Some(expected));
}

#[test]
fn revocation_removes_the_revoked_subscription() {
    let mut client = EventSubClient::new("42".to_string(), "me".to_string());
    let _ = client.handle_message(welcome("s1"));
    client.record_subscription("chan", "channel.update", "{}".to_string(), "r1".to_string());
    client.record_subscription("chan", "stream.online", "{}".to_string(), "r2".to_string());

    // a revocation for an id nobody tracks changes nothing
    let outcome = client.handle_message(WebSocketMessage::Revocation(
        hyperion::eventsub::RevocationPayload { subscription: sub("zz", "channel.update", "{}") },
    ));
    assert!(outcome.forward.is_none());

    // the revoked subscription is dropped locally; the other one survives
    let outcome = client.handle_message(WebSocketMessage::Revocation(
        hyperion::eventsub::RevocationPayload { subscription: sub("r1", "channel.update", "{}") },
    ));
    assert!(outcome.forward.is_none());
    assert!(client.unsubscribe("chan", "channel.update").is_none());
    assert!(client.unsubscribe("chan", "stream.online").is_some());
}

#[test]
fn subscribe_body_needs_a_session_and_picks_the_version() {
    let mut client = EventSubClient::new("42".to_string(), "me".to_string());
    assert_eq!(client.subscribe_body("channel.update", "{}"), Err(ClientError::NoSession));

    let _ = client.handle_message(welcome("s1"));
    let body = client.subscribe_body("channel.update", "{\"broadcaster_user_id\":\"1\"}").unwrap();
    assert_eq!(
        body,
        "{\"type\":\"channel.update\",\"version\":\"1\",\"condition\":{\"broadcaster_user_id\":\"1\"},\"transport\":{\"method\":\"websocket\",\"session_id\":\"s1\"}}",
    );
    let body = client.subscribe_body("automod.message.hold", "{}").unwrap();
    assert!(body.contains("\"version\":\"2\""));
}

#[test]
fn subscribe_all_builds_one_body_per_entry() {
    let mut client = EventSubClient::new("42".to_string(), "me".to_string());
    let wanted = vec![
        ("channel.update".to_string(), "{\"broadcaster_user_id\":\"1\"}".to_string()),
        ("stream.online".to_string(), "{\"broadcaster_user_id\":\"1\"}".to_string()),
    ];
    assert_eq!(client.subscribe_all_bodies(&wanted), Err(ClientError::NoSession));

    let _ = client.handle_message(welcome("s1"));
    let bodies = client.subscribe_all_bodies(&wanted).expect("session established");
    assert_eq!(bodies.len(), 2);
    assert!(bodies[0].contains("\"type\":\"channel.update\""));
    assert!(bodies[1].contains("\"type\":\"stream.online\""));
}

#[test]
fn unsubscribe_all_returns_the_channels_entries() {
    let mut client = EventSubClient::new("42".to_string(), "me".to_string());
    let _ = client.handle_message(welcome("s1"));
    client.record_subscription("chan", "channel.update", "{}".to_string(), "r1".to_string());
    client.record_subscription("chan", "stream.online", "{}".to_string(), "r2".to_string());
    client.record_subscription("other", "stream.online", "{}".to_string(), "r3".to_string());

    let removed = client.unsubscribe_all("chan");
    assert_eq!(removed.len(), 2);
    assert!(client.unsubscribe("other", "stream.online").is_some());
    assert!(client.unsubscribe("chan", "channel.update").is_none());
}

#[test]
fn resumable_end_of_stream_forces_a_resume() {
    let mut client = SeventTvClient::new();
    assert!(!client.connected());
    assert_eq!(client.on_connect(), None);
    assert!(client.connected());

    let action = client.handle_frame(
        1,
        FramePayload { session_id: Some("abc".to_string()), code: None, raw: String::new() },
    );
    assert_eq!(action, FrameAction::Ignore);
    assert_eq!(client.session_id, Some("abc".to_string()));

    let action = client.handle_frame(
        7,
        FramePayload { session_id: None, code: Some(4006), raw: String::new() },
    );
    assert_eq!(action, FrameAction::Resume);

    // the fresh connection resumes the stored session
    let frame = client.on_connect().expect("session id is stored");
    assert_eq!(frame, "{\"op\":34,\"d\":{\"session_id\":\"abc\"}}");
}

#[test]
fn non_resumable_codes_are_ignored() {
    let mut client = SeventTvClient::new();
    let action = client.handle_frame(
        7,
        FramePayload { session_id: None, code: Some(4001), raw: String::new() },
    );
    assert_eq!(action, FrameAction::Ignore);
    let action = client.handle_frame(
        9,
        FramePayload { session_id: None, code: None, raw: "x".to_string() },
    );
    assert_eq!(action, FrameAction::Ignore);
}

#[test]
fn dispatch_frames_are_forwarded() {
    let mut client = SeventTvClient::new();
    let action = client.handle_frame(
        0,
        FramePayload { session_id: None, code: None, raw: "{\"body\":1}".to_string() },
    );
    assert_eq!(action, FrameAction::Forward("{\"body\":1}".to_string()));
}

#[test]
fn close_marks_disconnected_but_keeps_the_session() {
    let mut client = SeventTvClient::new();
    let _ = client.on_connect();
    let _ = client.handle_frame(
        1,
        FramePayload { session_id: Some("abc".to_string()), code: None, raw: String::new() },
    );
    client.on_close();
    assert!(!client.connected());
    assert_eq!(client.session_id, Some("abc".to_string()));
}

#[test]
fn secondary_feed_subscribe_and_unsubscribe_frames() {
    let mut client = SeventTvClient::new();
    let frame = client.subscribe("chan", "emote_set.*", "{\"object_id\":\"X\"}".to_string());
    assert_eq!(
        frame,
        "{\"op\":35,\"d\":{\"type\":\"emote_set.*\",\"condition\":{\"object_id\":\"X\"}}}",
    );

    let frame = client.unsubscribe("chan", "emote_set.*").expect("tracked");
    assert_eq!(
        frame,
        "{\"op\":36,\"d\":{\"type\":\"emote_set.*\",\"condition\":{\"object_id\":\"X\"}}}",
    );
    assert_eq!(client.unsubscribe("chan", "emote_set.*"), None);
}

#[test]
fn secondary_feed_unsubscribe_all() {
    let mut client = SeventTvClient::new();
    let _ = client.subscribe("chan", "cosmetic.create", "{\"id\":\"1\"}".to_string());
    let _ = client.subscribe("chan", "entitlement.create", "{\"id\":\"1\"}".to_string());
    let _ = client.subscribe("other", "cosmetic.create", "{\"id\":\"2\"}".to_string());

    let removed = client.unsubscribe_all("chan");
    assert_eq!(removed.len(), 2);
    for (key, frame) in &removed {
        assert!(key.starts_with("chan:"));
        assert!(frame.starts_with("{\"op\":36,"));
    }
    assert_ne!(removed[0].0, removed[1].0);
    assert!(client.unsubscribe("other", "cosmetic.create").is_some());
}
