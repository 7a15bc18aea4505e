//! Tests of the tokenizer and the typed command parser.

use hyperion::commands::{ClearChatAction, ClearChatMessage, ServerMessage};
use hyperion::extract::ServerMessageParseError;
use hyperion::line::{IrcMessage, IrcPrefix};
use hyperion::num::{parse_i64, parse_u64, parse_u8};
use hyperion::tokenize::LineParseError;
use hyperion::usernotice::{UserNoticeEvent, UserNoticeMessage};

fn parse_line(line: &str) -> IrcMessage {
    IrcMessage::parse(line).expect("line should tokenize")
}

#[test]
fn tokenize_full_line() {
    let msg = parse_line(
        "@badge-info=;color=#FF0000;display-name=Tester :tester!tester@tester.example PRIVMSG #chan :hello world",
    );
    assert_eq!(msg.command, "PRIVMSG");
    assert_eq!(msg.params, vec!["#chan".to_string(), "hello world".to_string()]);
    assert_eq!(msg.tags.get("color"), Some(&"#FF0000".to_string()));
    assert_eq!(msg.tags.get("badge-info"), Some(&"".to_string()));
    assert_eq!(msg.tags.get("absent"), None);
    assert_eq!(
        msg.prefix,
        Some(IrcPrefix::Full {
            nick: "tester".to_string(),
            user: "tester".to_string(),
            host: "tester.example".to_string(),
        })
    );
}

#[test]
fn tokenize_host_only_prefix_and_middle_params() {
    let msg = parse_line(":tmi.example.com CLEARCHAT #chan target");
    assert_eq!(msg.prefix, Some(IrcPrefix::HostOnly { host: "tmi.example.com".to_string() }));
    assert_eq!(msg.params, vec!["#chan".to_string(), "target".to_string()]);
}

#[test]
fn tokenize_unescapes_tag_values() {
    let msg = parse_line("@system-msg=a\\sb\\:c\\\\d\\re;x=\\p PING");
    assert_eq!(msg.tags.get("system-msg"), Some(&"a b;c\\d\re".to_string()));
    // an unknown escape keeps its character
    assert_eq!(msg.tags.get("x"), Some(&"p".to_string()));
    assert_eq!(msg.command, "PING");
    assert!(msg.params.is_empty());
}

#[test]
fn tokenize_duplicate_tag_keys_last_wins() {
    let msg = parse_line("@k=first;k=second PING");
    assert_eq!(msg.tags.get("k"), Some(&"second".to_string()));
}

#[test]
fn tokenize_missing_command_fails() {
    assert_eq!(IrcMessage::parse(""), Err(LineParseError::MissingCommand));
    assert_eq!(IrcMessage::parse("@tags=only"), Err(LineParseError::MissingCommand));
    assert_eq!(IrcMessage::parse(":prefix.only"), Err(LineParseError::MissingCommand));
}

#[test]
fn decimal_parsing_matches_std() {
    assert_eq!(parse_u64("123"), Some(123));
    assert_eq!(parse_u64("+123"), Some(123));
    assert_eq!(parse_u64("00042"), Some(42));
    assert_eq!(parse_u64(""), None);
    assert_eq!(parse_u64("+"), None);
    assert_eq!(parse_u64("12a"), None);
    assert_eq!(parse_u64("18446744073709551615"), Some(u64::MAX));
    assert_eq!(parse_u64("18446744073709551616"), None);
    assert_eq!(parse_u8("255"), Some(255));
    assert_eq!(parse_u8("256"), None);
    assert_eq!(parse_i64("-42"), Some(-42));
    assert_eq!(parse_i64("-9223372036854775808"), Some(i64::MIN));
    assert_eq!(parse_i64("-9223372036854775809"), None);
}

const PRIVMSG_LINE: &str = "@badge-info=subscriber/3;badges=subscriber/3,premium/1;color=#FF0000;display-name=Tester;emotes=25:0-4,6-10;first-msg=0;id=msg-id-1;mod=0;room-id=123;subscriber=1;tmi-sent-ts=1594545155039;user-id=456 :tester!tester@tester.example PRIVMSG #chan :Kappa Kappa";

#[test]
fn privmsg_parses_into_its_variant() {
    let raw = parse_line(PRIVMSG_LINE);
    let expected_raw = parse_line(PRIVMSG_LINE);
    let msg = ServerMessage::try_from(raw).expect("should parse");
    match &msg {
        ServerMessage::Privmsg(m) => {
            assert_eq!(m.channel_login, "chan");
            assert_eq!(m.channel_id, "123");
            assert_eq!(m.message_text, "Kappa Kappa");
            assert!(!m.is_action);
            assert_eq!(m.sender.id, "456");
            assert_eq!(m.sender.login, "tester");
            assert_eq!(m.sender.name, "Tester");
            assert_eq!(m.badges.len(), 2);
            assert_eq!(m.badges[0].name, "subscriber");
            assert_eq!(m.badges[0].version, "3");
            assert_eq!(m.badges[1].name, "premium");
            assert_eq!(m.bits, None);
            assert_eq!(m.name_color, "#FF0000");
            assert!(m.is_subscriber);
            assert!(!m.is_mod);
            assert_eq!(m.server_timestamp, 1594545155039);
            assert_eq!(m.message_id, "msg-id-1");
        },
        other => panic!("expected a chat message, got {:?}", other),
    }
    // the typed event retains the raw line losslessly
    assert_eq!(msg.raw(), &expected_raw);
    assert_eq!(msg.into_raw(), expected_raw);
}

#[test]
fn emotes_are_decoded_by_character_offsets() {
    let raw = parse_line(PRIVMSG_LINE);
    let emotes = raw.try_get_emotes("emotes", "Kappa Kappa").expect("well-formed tag");
    assert_eq!(emotes.len(), 2);
    assert_eq!(emotes[0].id, "25");
    assert_eq!(emotes[0].char_range, 0..5);
    assert_eq!(emotes[0].code, "Kappa");
    assert_eq!(emotes[1].id, "25");
    assert_eq!(emotes[1].char_range, 6..11);
    assert_eq!(emotes[1].code, "Kappa");
}

#[test]
fn emotes_are_sorted_by_start_offset() {
    let raw = parse_line("@emotes=1:6-10/2:0-4 PING");
    let emotes = raw.try_get_emotes("emotes", "Kappa Keepo").expect("well-formed tag");
    assert_eq!(emotes.len(), 2);
    assert_eq!(emotes[0].id, "2");
    assert_eq!(emotes[0].char_range, 0..5);
    assert_eq!(emotes[1].id, "1");
    assert_eq!(emotes[1].char_range, 6..11);
}

#[test]
fn emotes_use_character_counts_not_bytes() {
    let raw = parse_line("@emotes=7:2-6 PING");
    let emotes = raw.try_get_emotes("emotes", "\u{00e4}\u{00f6} Kappa").expect("well-formed tag");
    assert_eq!(emotes.len(), 1);
    assert_eq!(emotes[0].char_range, 2..7);
    assert_eq!(emotes[0].code, " Kapp");
}

#[test]
fn malformed_emote_segment_carries_whole_value() {
    let raw = parse_line("@emotes=25:0-4,borked PING");
    let err = raw.try_get_emotes("emotes", "Kappa").unwrap_err();
    match err {
        ServerMessageParseError::MalformedTagValue(_, key, value) => {
            assert_eq!(key, "emotes");
            assert_eq!(value, "25:0-4,borked");
        },
        other => panic!("expected a malformed tag value, got {:?}", other),
    }
}

#[test]
fn numeric_tag_with_bad_data_is_malformed() {
    let line = PRIVMSG_LINE.replace("@badge-info", "@bits=bad-data;badge-info");
    let raw = parse_line(&line);
    let err = ServerMessage::try_from(raw).unwrap_err();
    match err {
        ServerMessageParseError::MalformedTagValue(_, key, value) => {
            assert_eq!(key, "bits");
            assert_eq!(value, "bad-data");
        },
        other => panic!("expected a malformed tag value, got {:?}", other),
    }
}

#[test]
fn channel_without_hash_is_malformed() {
    let raw = parse_line(":tester!tester@tester.example PRIVMSG chan :hi");
    let err = ServerMessage::try_from(raw).unwrap_err();
    assert!(matches!(err, ServerMessageParseError::MalformedChannel(_)));
}

#[test]
fn unknown_command_degrades_to_generic() {
    let raw = parse_line(":server.example 372 tester :message of the day");
    let expected_raw = parse_line(":server.example 372 tester :message of the day");
    let msg = ServerMessage::try_from(raw).expect("unknown commands never fail");
    assert!(matches!(msg, ServerMessage::Generic(_)));
    assert_eq!(msg.raw(), &expected_raw);

    let generic = ServerMessage::new_generic(parse_line("FOO bar"));
    assert!(matches!(generic, ServerMessage::Generic(_)));
}

#[test]
fn action_envelope_is_stripped() {
    let line = format!(
        "@badge-info=;badges=;color=;display-name=Tester;emotes=;id=m1;mod=0;room-id=1;subscriber=0;tmi-sent-ts=1;user-id=2 :tester!t@h PRIVMSG #chan :\u{1}ACTION waves\u{1}",
    );
    let raw = parse_line(&line);
    match ServerMessage::try_from(raw).expect("should parse") {
        ServerMessage::Privmsg(m) => {
            assert!(m.is_action);
            assert_eq!(m.message_text, "waves");
        },
        other => panic!("expected a chat message, got {:?}", other),
    }
}

#[test]
fn clear_chat_timeout_ban_and_clear() {
    let raw = parse_line(
        "@room-id=1;target-user-id=2;ban-duration=600;tmi-sent-ts=100 :tmi.example CLEARCHAT #chan :baduser",
    );
    let m = ClearChatMessage::try_from(raw).expect("should parse");
    match &m.action {
        ClearChatAction::UserTimeout { user_login, user_id, duration } => {
            assert_eq!(user_login, "baduser");
            assert_eq!(user_id, "2");
            assert_eq!(duration.as_secs(), 600);
            assert_eq!(duration.subsec_nanos(), 0);
        },
        other => panic!("expected a timeout, got {:?}", other),
    }

    let raw = parse_line(
        "@room-id=1;target-user-id=2;tmi-sent-ts=100 :tmi.example CLEARCHAT #chan :baduser",
    );
    let m = ClearChatMessage::try_from(raw).expect("should parse");
    assert_eq!(
        m.action,
        ClearChatAction::UserBan { user_login: "baduser".to_string(), user_id: "2".to_string() }
    );

    let raw = parse_line("@room-id=1;tmi-sent-ts=100 :tmi.example CLEARCHAT #chan");
    let m = ClearChatMessage::try_from(raw).expect("should parse");
    assert_eq!(m.action, ClearChatAction::ChatClear);
}

#[test]
fn mismatched_command_is_rejected() {
    let raw = parse_line("PING");
    let err = ClearChatMessage::try_from(raw).unwrap_err();
    assert!(matches!(err, ServerMessageParseError::MismatchedCommand(_)));
}

const USERNOTICE_COMMON: &str = "badge-info=;badges=;color=;display-name=Gifter;emotes=;id=un1;login=gifter;room-id=1;subscriber=0;tmi-sent-ts=100;user-id=";

#[test]
fn subgift_by_anonymous_sentinel_is_anonymous() {
    let line = format!(
        "@{}274598607;msg-id=subgift;msg-param-months=3;msg-param-recipient-display-name=R;msg-param-recipient-id=9;msg-param-recipient-user-name=r;msg-param-sub-plan=1000;msg-param-sub-plan-name=Plan;msg-param-gift-months=1;system-msg=gifted :tmi.example USERNOTICE #chan",
        USERNOTICE_COMMON,
    );
    let m = UserNoticeMessage::try_from(parse_line(&line)).expect("should parse");
    match m.event {
        UserNoticeEvent::SubGift { is_sender_anonymous, cumulative_months, sender_total_months, .. } => {
            assert!(is_sender_anonymous);
            assert_eq!(cumulative_months, 3);
            assert_eq!(sender_total_months, 0);
        },
        other => panic!("expected a gifted subscription, got {:?}", other),
    }
    assert_eq!(m.event_id, "subgift");
    assert_eq!(m.system_message, "gifted");
}

#[test]
fn shared_chat_notice_substitutes_source_id() {
    let line = format!(
        "@{}5;msg-id=sharedchatnotice;source-msg-id=raid;msg-param-viewerCount=42;msg-param-profileImageURL=http://x;system-msg=raiding :tmi.example USERNOTICE #chan",
        USERNOTICE_COMMON,
    );
    let m = UserNoticeMessage::try_from(parse_line(&line)).expect("should parse");
    assert_eq!(m.event_id, "raid");
    match m.event {
        UserNoticeEvent::Raid { viewer_count, profile_image_url } => {
            assert_eq!(viewer_count, 42);
            assert_eq!(profile_image_url, "http://x");
        },
        other => panic!("expected a raid, got {:?}", other),
    }
}

#[test]
fn announcement_falls_back_to_parameter_for_system_message() {
    let line = format!(
        "@{}5;msg-id=announcement;msg-param-color=PRIMARY :tmi.example USERNOTICE #chan :big news",
        USERNOTICE_COMMON,
    );
    let m = UserNoticeMessage::try_from(parse_line(&line)).expect("should parse");
    assert_eq!(m.system_message, "big news");
    assert_eq!(m.message_text, Some("big news".to_string()));
    assert!(matches!(m.event, UserNoticeEvent::Announcement { .. }));
}

#[test]
fn viewer_milestone_maps_watch_streak_only() {
    let line = format!(
        "@{}5;msg-id=viewermilestone;msg-param-category=watch-streak;msg-param-value=10;msg-param-copoReward=450;system-msg=streak :tmi.example USERNOTICE #chan",
        USERNOTICE_COMMON,
    );
    let m = UserNoticeMessage::try_from(parse_line(&line)).expect("should parse");
    assert_eq!(m.event, UserNoticeEvent::WatchStreak { streak: 10, points: 450 });

    let line = format!(
        "@{}5;msg-id=viewermilestone;msg-param-category=other-thing;system-msg=hm :tmi.example USERNOTICE #chan",
        USERNOTICE_COMMON,
    );
    let m = UserNoticeMessage::try_from(parse_line(&line)).expect("should parse");
    assert_eq!(m.event, UserNoticeEvent::Unknown);
}

#[test]
fn unknown_notice_id_is_not_an_error() {
    let line = format!(
        "@{}5;msg-id=brandnewthing;system-msg=hm :tmi.example USERNOTICE #chan",
        USERNOTICE_COMMON,
    );
    let m = UserNoticeMessage::try_from(parse_line(&line)).expect("should parse");
    assert_eq!(m.event, UserNoticeEvent::Unknown);
    assert_eq!(m.event_id, "brandnewthing");
}

#[test]
fn reply_metadata_is_gated() {
    let no_gate = parse_line("@other=1 PING");
    assert_eq!(no_gate.try_get_optional_reply().expect("no gate, no error"), None);

    let gated = parse_line(
        "@reply-parent-msg-id=p1;reply-parent-user-id=2;reply-parent-user-login=alice;reply-parent-display-name=Alice;reply-parent-msg-body=hi;reply-thread-parent-msg-id=t1;reply-thread-parent-user-id=3;reply-thread-parent-user-login=bob;reply-thread-parent-display-name=Bob PING",
    );
    let reply = gated.try_get_optional_reply().expect("all tags present").expect("gated");
    assert_eq!(reply.parent.message_id, "p1");
    assert_eq!(reply.parent.user.login, "alice");
    assert_eq!(reply.thread.message_id, "t1");
    assert_eq!(reply.thread.user.name, "Bob");

    let broken = parse_line("@reply-parent-msg-id=p1 PING");
    assert!(broken.try_get_optional_reply().is_err());
}

#[test]
fn badges_require_a_slash() {
    let raw = parse_line("@badges=subscriber3 PING");
    let err = raw.try_get_badges("badges").unwrap_err();
    assert!(matches!(err, ServerMessageParseError::MalformedTagValue(_, _, _)));

    let raw = parse_line("@badges= PING");
    assert!(raw.try_get_badges("badges").expect("empty tag").is_empty());
}

#[test]
fn emote_sets_split_on_commas() {
    let raw = parse_line("@emote-sets=0,33,50 PING");
    let sets = raw.try_get_emote_sets("emote-sets").expect("present");
    assert_eq!(sets, vec!["0".to_string(), "33".to_string(), "50".to_string()]);

    let raw = parse_line("@emote-sets= PING");
    assert!(raw.try_get_emote_sets("emote-sets").expect("present").is_empty());
}

#[test]
fn roomstate_optional_fields() {
    let raw = parse_line(
        "@room-id=1;emote-only=0;followers-only=-1;r9k=0;slow=30;subs-only=1 :tmi.example ROOMSTATE #chan",
    );
    match ServerMessage::try_from(raw).expect("should parse") {
        ServerMessage::RoomState(m) => {
            assert_eq!(m.emote_only, Some(false));
            assert_eq!(m.followers_only, Some(-1));
            assert_eq!(m.unique_mode, Some(false));
            assert_eq!(m.slow_mode, Some(30));
            assert_eq!(m.subscribers_only, Some(true));
        },
        other => panic!("expected room state, got {:?}", other),
    }
}

#[test]
fn notice_star_channel_is_none() {
    let raw = parse_line(":tmi.example NOTICE * :Login unsuccessful");
    match ServerMessage::try_from(raw).expect("should parse") {
        ServerMessage::Notice(m) => {
            assert_eq!(m.channel_login, None);
            assert_eq!(m.message_text, "Login unsuccessful");
        },
        other => panic!("expected a notice, got {:?}", other),
    }
}

#[test]
fn missing_tag_and_empty_tag_differ() {
    let raw = parse_line("@room-id=1;login= :tmi.example CLEARMSG #chan :hello");
    let err = ServerMessage::try_from(raw).unwrap_err();
    assert!(matches!(err, ServerMessageParseError::MissingTagValue(_, k) if k == "login"));

    let raw = parse_line(":tmi.example CLEARMSG #chan :hello");
    let err = ServerMessage::try_from(raw).unwrap_err();
    assert!(matches!(err, ServerMessageParseError::MissingTag(_, k) if k == "room-id"));
}

#[test]
fn missing_parameter_is_reported_with_its_index() {
    let raw = parse_line(":tmi.example CLEARMSG #chan");
    let err = ServerMessage::try_from(raw).unwrap_err();
    assert!(matches!(err, ServerMessageParseError::MissingParameter(_, 1)));
}

#[test]
fn join_requires_a_full_prefix() {
    let raw = parse_line(":onlyhost.example JOIN #chan");
    let err = ServerMessage::try_from(raw).unwrap_err();
    assert!(matches!(err, ServerMessageParseError::MissingNickname(_)));

    let raw = parse_line("JOIN #chan");
    let err = ServerMessage::try_from(raw).unwrap_err();
    assert!(matches!(err, ServerMessageParseError::MissingPrefix(_)));

    let raw = parse_line(":alice!a@h JOIN #chan");
    match ServerMessage::try_from(raw).expect("should parse") {
        ServerMessage::Join(m) => {
            assert_eq!(m.channel_login, "chan");
            assert_eq!(m.user_login, "alice");
        },
        other => panic!("expected a join, got {:?}", other),
    }
}
