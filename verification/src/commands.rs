//! The typed chat events: one constructor per command name, each turning a
//! raw line into a strongly-typed event and retaining the line it came
//! from.

use vstd::prelude::*;

use crate::extract::{
    action_wrapped, badge_views, badges_of, badges_tag_ok, bool_tag_val, channel_login_of,
    channel_ok, emote_sets_of, emote_views, emotes_of, emotes_tag_ok, err_mismatched_command,
    has_nonempty_tag, has_param, has_tag, message_text_of, opt_unsigned_tag_ok,
    param, reply_gate, reply_of, reply_ok, sorted_by_start, source_gate, source_of, source_ok, tag_val,
    unsigned_tag_ok, unsigned_tag_val, ServerMessageParseError,
};
use crate::line::{IrcMessage, LineView, PrefixView};
use crate::twitch::{Badge, BasicUser, Emote, Reply, Source};
use crate::usernotice::{user_notice_ok, UserNoticeMessage};

verus! {

/// What `Duration::from_secs` returns for a given number of seconds.
pub uninterp spec fn duration_of_secs(secs: u64) -> core::time::Duration;

/// Relies on core::time::Duration::from_secs: a duration of the given
/// number of whole seconds, a function of that argument alone.
pub assume_specification[ core::time::Duration::from_secs ](secs: u64) -> (r:
    core::time::Duration)
    ensures
        r == duration_of_secs(secs),
;

/// A moderation action reported by a chat-clearing event: the whole room,
/// one user banned, or one user timed out.
#[derive(Debug, PartialEq, Eq)]
pub enum ClearChatAction {
    ChatClear,
    UserBan { user_login: String, user_id: String },
    UserTimeout { user_login: String, user_id: String, duration: core::time::Duration },
}

/// A chat-clearing event: the whole room or one user's messages.
#[derive(Debug, PartialEq, Eq)]
pub struct ClearChatMessage {
    pub channel_login: String,
    pub channel_id: String,
    pub action: ClearChatAction,
    pub is_recent: bool,
    pub server_timestamp: u64,
    pub raw: IrcMessage,
}

/// A chat-clearing line is readable: a channel, a room id, a timestamp,
/// and, when a target user is named, the target's id and an optional
/// well-formed duration.
pub open spec fn clear_chat_ok(m: LineView) -> bool {
    &&& channel_ok(m)
    &&& has_nonempty_tag(m, "room-id"@)
    &&& opt_unsigned_tag_ok(m, "historical"@, u8::MAX as int)
    &&& unsigned_tag_ok(m, "tmi-sent-ts"@, u64::MAX as int)
    &&& (has_param(m, 1) ==> {
        &&& has_nonempty_tag(m, "target-user-id"@)
        &&& opt_unsigned_tag_ok(m, "ban-duration"@, u64::MAX as int)
    })
}

/// The action a chat-clearing line denotes: no second parameter clears the
/// room; a target with a duration is a timeout, without one a ban.
pub open spec fn clear_chat_action_of(m: LineView, a: ClearChatAction) -> bool {
    if !has_param(m, 1) {
        a is ChatClear
    } else if has_tag(m, "ban-duration"@) {
        a matches ClearChatAction::UserTimeout { user_login, user_id, duration } && user_login@
            == param(m, 1) && user_id@ == tag_val(m, "target-user-id"@) && duration
            == duration_of_secs(unsigned_tag_val(m, "ban-duration"@) as u64)
    } else {
        a matches ClearChatAction::UserBan { user_login, user_id } && user_login@ == param(m, 1)
            && user_id@ == tag_val(m, "target-user-id"@)
    }
}

impl ClearChatMessage {
    /// Reads a `CLEARCHAT` line.
    pub fn try_from(raw: IrcMessage) -> (r: Result<ClearChatMessage, ServerMessageParseError>)
        ensures
            raw@.command != "CLEARCHAT"@ ==> (r matches Err(e) && err_mismatched_command(e, raw@)),
            raw@.command == "CLEARCHAT"@ ==> ((r is Ok) <==> clear_chat_ok(raw@)),
            r matches Ok(m) ==> {
                &&& raw@.command == "CLEARCHAT"@
                &&& m.raw == raw
                &&& m.channel_login@ == channel_login_of(raw@)
                &&& m.channel_id@ == tag_val(raw@, "room-id"@)
                &&& m.is_recent == (has_tag(raw@, "historical"@) && bool_tag_val(
                    raw@,
                    "historical"@,
                ))
                &&& m.server_timestamp == unsigned_tag_val(raw@, "tmi-sent-ts"@)
                &&& clear_chat_action_of(raw@, m.action)
            },
            r matches Err(e) ==> e.raw_view() == raw@,
    {
        if !(raw.command == "CLEARCHAT".to_owned()) {
            return Err(ServerMessageParseError::MismatchedCommand(raw));
        }
        let action = if raw.params.len() > 1 {
            let user_login = raw.params[1].clone();
            let user_id = match raw.try_get_nonempty_tag_value("target-user-id") {
                Ok(v) => v.clone(),
                Err(e) => {
                    return Err(e);
                },
            };
            match raw.try_get_optional_u64("ban-duration") {
                Ok(Some(secs)) => ClearChatAction::UserTimeout {
                    user_login,
                    user_id,
                    duration: core::time::Duration::from_secs(secs),
                },
                Ok(None) => ClearChatAction::UserBan { user_login, user_id },
                Err(e) => {
                    return Err(e);
                },
            }
        } else {
            ClearChatAction::ChatClear
        };
        let channel_login = match raw.try_get_channel_login() {
            Ok(v) => v,
            Err(e) => {
                return Err(e);
            },
        };
        let channel_id = match raw.try_get_nonempty_tag_value("room-id") {
            Ok(v) => v.clone(),
            Err(e) => {
                return Err(e);
            },
        };
        let is_recent = match raw.try_get_optional_bool("historical") {
            Ok(v) => v.unwrap_or(false),
            Err(e) => {
                return Err(e);
            },
        };
        let server_timestamp = match raw.try_get_timestamp("tmi-sent-ts") {
            Ok(v) => v,
            Err(e) => {
                return Err(e);
            },
        };
        Ok(ClearChatMessage { channel_login, channel_id, action, is_recent, server_timestamp, raw })
    }
}

/// A single deleted message.
#[derive(Debug, PartialEq, Eq)]
pub struct ClearMsgMessage {
    pub channel_login: String,
    pub channel_id: String,
    pub sender_login: String,
    pub message_id: String,
    pub message_text: String,
    pub is_action: bool,
    pub is_recent: bool,
    pub server_timestamp: u64,
    pub raw: IrcMessage,
}

/// A message-deletion line is readable.
pub open spec fn clear_msg_ok(m: LineView) -> bool {
    &&& channel_ok(m)
    &&& has_param(m, 1)
    &&& has_nonempty_tag(m, "room-id"@)
    &&& has_nonempty_tag(m, "login"@)
    &&& has_nonempty_tag(m, "target-msg-id"@)
    &&& unsigned_tag_ok(m, "tmi-sent-ts"@, u64::MAX as int)
    &&& opt_unsigned_tag_ok(m, "historical"@, u8::MAX as int)
}

impl ClearMsgMessage {
    /// Reads a `CLEARMSG` line.
    pub fn try_from(raw: IrcMessage) -> (r: Result<ClearMsgMessage, ServerMessageParseError>)
        ensures
            raw@.command != "CLEARMSG"@ ==> (r matches Err(e) && err_mismatched_command(e, raw@)),
            raw@.command == "CLEARMSG"@ ==> ((r is Ok) <==> clear_msg_ok(raw@)),
            r matches Ok(m) ==> {
                &&& raw@.command == "CLEARMSG"@
                &&& m.raw == raw
                &&& m.channel_login@ == channel_login_of(raw@)
                &&& m.channel_id@ == tag_val(raw@, "room-id"@)
                &&& m.sender_login@ == tag_val(raw@, "login"@)
                &&& m.message_id@ == tag_val(raw@, "target-msg-id"@)
                &&& m.message_text@ == message_text_of(param(raw@, 1))
                &&& m.is_action == action_wrapped(param(raw@, 1))
                &&& m.is_recent == (has_tag(raw@, "historical"@) && bool_tag_val(
                    raw@,
                    "historical"@,
                ))
                &&& m.server_timestamp == unsigned_tag_val(raw@, "tmi-sent-ts"@)
            },
            r matches Err(e) ==> e.raw_view() == raw@,
    {
        if !(raw.command == "CLEARMSG".to_owned()) {
            return Err(ServerMessageParseError::MismatchedCommand(raw));
        }
        let (message_text, is_action) = match raw.try_get_message_text() {
            Ok(v) => v,
            Err(e) => {
                return Err(e);
            },
        };
        let channel_login = match raw.try_get_channel_login() {
            Ok(v) => v,
            Err(e) => {
                return Err(e);
            },
        };
        let channel_id = match raw.try_get_nonempty_tag_value("room-id") {
            Ok(v) => v.clone(),
            Err(e) => {
                return Err(e);
            },
        };
        let sender_login = match raw.try_get_nonempty_tag_value("login") {
            Ok(v) => v.clone(),
            Err(e) => {
                return Err(e);
            },
        };
        let message_id = match raw.try_get_nonempty_tag_value("target-msg-id") {
            Ok(v) => v.clone(),
            Err(e) => {
                return Err(e);
            },
        };
        let server_timestamp = match raw.try_get_timestamp("tmi-sent-ts") {
            Ok(v) => v,
            Err(e) => {
                return Err(e);
            },
        };
        let is_recent = match raw.try_get_optional_bool("historical") {
            Ok(v) => v.unwrap_or(false),
            Err(e) => {
                return Err(e);
            },
        };
        Ok(
            ClearMsgMessage {
                channel_login,
                channel_id,
                sender_login,
                message_id,
                message_text,
                is_action,
                is_recent,
                server_timestamp,
                raw,
            },
        )
    }
}

/// The logged-in user's global state.
#[derive(Debug, PartialEq, Eq)]
pub struct GlobalUserStateMessage {
    pub user_id: String,
    pub user_name: String,
    pub badge_info: Vec<Badge>,
    pub badges: Vec<Badge>,
    pub emote_sets: Vec<String>,
    pub name_color: String,
    pub raw: IrcMessage,
}

/// A global-user-state line is readable.
pub open spec fn global_user_state_ok(m: LineView) -> bool {
    &&& has_nonempty_tag(m, "user-id"@)
    &&& has_nonempty_tag(m, "display-name"@)
    &&& has_tag(m, "badge-info"@) && badges_tag_ok(tag_val(m, "badge-info"@))
    &&& has_tag(m, "badges"@) && badges_tag_ok(tag_val(m, "badges"@))
    &&& has_tag(m, "emote-sets"@)
    &&& has_tag(m, "color"@)
}

impl GlobalUserStateMessage {
    /// Reads a `GLOBALUSERSTATE` line.
    pub fn try_from(raw: IrcMessage) -> (r: Result<
        GlobalUserStateMessage,
        ServerMessageParseError,
    >)
        ensures
            raw@.command != "GLOBALUSERSTATE"@ ==> (r matches Err(e) && err_mismatched_command(
                e,
                raw@,
            )),
            raw@.command == "GLOBALUSERSTATE"@ ==> ((r is Ok) <==> global_user_state_ok(raw@)),
            r matches Ok(m) ==> {
                &&& raw@.command == "GLOBALUSERSTATE"@
                &&& m.raw == raw
                &&& m.user_id@ == tag_val(raw@, "user-id"@)
                &&& m.user_name@ == tag_val(raw@, "display-name"@)
                &&& badge_views(m.badge_info@) == badges_of(tag_val(raw@, "badge-info"@))
                &&& badge_views(m.badges@) == badges_of(tag_val(raw@, "badges"@))
                &&& m.emote_sets.deep_view() == emote_sets_of(tag_val(raw@, "emote-sets"@))
                &&& m.name_color@ == tag_val(raw@, "color"@)
            },
            r matches Err(e) ==> e.raw_view() == raw@,
    {
        if !(raw.command == "GLOBALUSERSTATE".to_owned()) {
            return Err(ServerMessageParseError::MismatchedCommand(raw));
        }
        let user_id = match raw.try_get_nonempty_tag_value("user-id") {
            Ok(v) => v.clone(),
            Err(e) => {
                return Err(e);
            },
        };
        let user_name = match raw.try_get_nonempty_tag_value("display-name") {
            Ok(v) => v.clone(),
            Err(e) => {
                return Err(e);
            },
        };
        let badge_info = match raw.try_get_badges("badge-info") {
            Ok(v) => v,
            Err(e) => {
                return Err(e);
            },
        };
        let badges = match raw.try_get_badges("badges") {
            Ok(v) => v,
            Err(e) => {
                return Err(e);
            },
        };
        let emote_sets = match raw.try_get_emote_sets("emote-sets") {
            Ok(v) => v,
            Err(e) => {
                return Err(e);
            },
        };
        let name_color = match raw.try_get_color("color") {
            Ok(v) => v.clone(),
            Err(e) => {
                return Err(e);
            },
        };
        Ok(
            GlobalUserStateMessage {
                user_id,
                user_name,
                badge_info,
                badges,
                emote_sets,
                name_color,
                raw,
            },
        )
    }
}

/// A user joined a channel.
#[derive(Debug, PartialEq, Eq)]
pub struct JoinMessage {
    pub channel_login: String,
    pub user_login: String,
    pub raw: IrcMessage,
}

/// A join line is readable: a channel and a full prefix.
pub open spec fn join_ok(m: LineView) -> bool {
    channel_ok(m) && m.prefix matches Some(PrefixView::Full { .. })
}

impl JoinMessage {
    /// Reads a `JOIN` line.
    pub fn try_from(raw: IrcMessage) -> (r: Result<JoinMessage, ServerMessageParseError>)
        ensures
            raw@.command != "JOIN"@ ==> (r matches Err(e) && err_mismatched_command(e, raw@)),
            raw@.command == "JOIN"@ ==> ((r is Ok) <==> join_ok(raw@)),
            r matches Ok(m) ==> {
                &&& raw@.command == "JOIN"@
                &&& m.raw == raw
                &&& m.channel_login@ == channel_login_of(raw@)
                &&& raw@.prefix matches Some(PrefixView::Full { nick, .. }) && m.user_login@
                    == nick
            },
            r matches Err(e) ==> e.raw_view() == raw@,
    {
        if !(raw.command == "JOIN".to_owned()) {
            return Err(ServerMessageParseError::MismatchedCommand(raw));
        }
        let channel_login = match raw.try_get_channel_login() {
            Ok(v) => v,
            Err(e) => {
                return Err(e);
            },
        };
        let user_login = match raw.try_get_prefix_nickname() {
            Ok(v) => v.clone(),
            Err(e) => {
                return Err(e);
            },
        };
        Ok(JoinMessage { channel_login, user_login, raw })
    }
}

/// A server notice, possibly scoped to a channel.
#[derive(Debug, PartialEq, Eq)]
pub struct NoticeMessage {
    pub channel_login: Option<String>,
    pub message_text: String,
    pub message_id: Option<String>,
    pub deleted: bool,
    pub is_recent: bool,
    pub recent_timestamp: Option<u64>,
    pub raw: IrcMessage,
}

/// A notice line is readable: parameter 0 is a channel or `*`, parameter 1
/// carries the text, and the optional tags are well-formed when present.
pub open spec fn notice_ok(m: LineView) -> bool {
    &&& has_param(m, 0)
    &&& (param(m, 0) == seq!['*'] || (param(m, 0).len() >= 2 && param(m, 0)[0] == '#'))
    &&& has_param(m, 1)
    &&& (has_tag(m, "msg-id"@) ==> tag_val(m, "msg-id"@).len() > 0)
    &&& opt_unsigned_tag_ok(m, "rm-deleted"@, u8::MAX as int)
    &&& opt_unsigned_tag_ok(m, "historical"@, u8::MAX as int)
}

impl NoticeMessage {
    /// Reads a `NOTICE` line.
    pub fn try_from(raw: IrcMessage) -> (r: Result<NoticeMessage, ServerMessageParseError>)
        ensures
            raw@.command != "NOTICE"@ ==> (r matches Err(e) && err_mismatched_command(e, raw@)),
            raw@.command == "NOTICE"@ ==> ((r is Ok) <==> notice_ok(raw@)),
            r matches Ok(m) ==> {
                &&& raw@.command == "NOTICE"@
                &&& m.raw == raw
                &&& match m.channel_login {
                    Some(c) => channel_ok(raw@) && c@ == channel_login_of(raw@),
                    None => param(raw@, 0) == seq!['*'],
                }
                &&& m.message_text@ == param(raw@, 1)
                &&& match m.message_id {
                    Some(id) => has_nonempty_tag(raw@, "msg-id"@) && id@ == tag_val(
                        raw@,
                        "msg-id"@,
                    ),
                    None => !has_tag(raw@, "msg-id"@),
                }
                &&& m.deleted == (has_tag(raw@, "rm-deleted"@) && bool_tag_val(raw@, "rm-deleted"@))
                &&& m.is_recent == (has_tag(raw@, "historical"@) && bool_tag_val(
                    raw@,
                    "historical"@,
                ))
                &&& match m.recent_timestamp {
                    Some(ts) => unsigned_tag_ok(raw@, "rm-received-ts"@, u64::MAX as int) && ts
                        == unsigned_tag_val(raw@, "rm-received-ts"@),
                    None => !unsigned_tag_ok(raw@, "rm-received-ts"@, u64::MAX as int),
                }
            },
            r matches Err(e) ==> e.raw_view() == raw@,
    {
        if !(raw.command == "NOTICE".to_owned()) {
            return Err(ServerMessageParseError::MismatchedCommand(raw));
        }
        let channel_login = match raw.try_get_optional_channel_login() {
            Ok(v) => v,
            Err(e) => {
                return Err(e);
            },
        };
        let message_text = match raw.try_get_param(1) {
            Ok(v) => v.clone(),
            Err(e) => {
                return Err(e);
            },
        };
        let message_id = match raw.try_get_optional_nonempty_tag_value("msg-id") {
            Ok(Some(v)) => Some(v.clone()),
            Ok(None) => None,
            Err(e) => {
                return Err(e);
            },
        };
        let deleted = match raw.try_get_optional_bool("rm-deleted") {
            Ok(v) => v.unwrap_or(false),
            Err(e) => {
                return Err(e);
            },
        };
        let is_recent = match raw.try_get_optional_bool("historical") {
            Ok(v) => v.unwrap_or(false),
            Err(e) => {
                return Err(e);
            },
        };
        let recent_timestamp = match raw.try_get_timestamp("rm-received-ts") {
            Ok(v) => Some(v),
            Err(_) => None,
        };
        Ok(
            NoticeMessage {
                channel_login,
                message_text,
                message_id,
                deleted,
                is_recent,
                recent_timestamp,
                raw,
            },
        )
    }
}

/// A user left a channel.
#[derive(Debug, PartialEq, Eq)]
pub struct PartMessage {
    pub channel_login: String,
    pub user_login: String,
    pub raw: IrcMessage,
}

impl PartMessage {
    /// Reads a `PART` line.
    pub fn try_from(raw: IrcMessage) -> (r: Result<PartMessage, ServerMessageParseError>)
        ensures
            raw@.command != "PART"@ ==> (r matches Err(e) && err_mismatched_command(e, raw@)),
            raw@.command == "PART"@ ==> ((r is Ok) <==> join_ok(raw@)),
            r matches Ok(m) ==> {
                &&& raw@.command == "PART"@
                &&& m.raw == raw
                &&& m.channel_login@ == channel_login_of(raw@)
                &&& raw@.prefix matches Some(PrefixView::Full { nick, .. }) && m.user_login@
                    == nick
            },
            r matches Err(e) ==> e.raw_view() == raw@,
    {
        if !(raw.command == "PART".to_owned()) {
            return Err(ServerMessageParseError::MismatchedCommand(raw));
        }
        let channel_login = match raw.try_get_channel_login() {
            Ok(v) => v,
            Err(e) => {
                return Err(e);
            },
        };
        let user_login = match raw.try_get_prefix_nickname() {
            Ok(v) => v.clone(),
            Err(e) => {
                return Err(e);
            },
        };
        Ok(PartMessage { channel_login, user_login, raw })
    }
}

/// A transport-level liveness probe.
#[derive(Debug, PartialEq, Eq)]
pub struct PingMessage {
    pub raw: IrcMessage,
}

impl PingMessage {
    /// Reads a `PING` line.
    pub fn try_from(raw: IrcMessage) -> (r: Result<PingMessage, ServerMessageParseError>)
        ensures
            raw@.command != "PING"@ ==> (r matches Err(e) && err_mismatched_command(e, raw@)),
            raw@.command == "PING"@ ==> (r matches Ok(m) && m.raw == raw),
            r matches Err(e) ==> e.raw_view() == raw@,
    {
        if raw.command == "PING".to_owned() {
            Ok(PingMessage { raw })
        } else {
            Err(ServerMessageParseError::MismatchedCommand(raw))
        }
    }
}

/// The answer to a liveness probe.
#[derive(Debug, PartialEq, Eq)]
pub struct PongMessage {
    pub raw: IrcMessage,
}

impl PongMessage {
    /// Reads a `PONG` line.
    pub fn try_from(raw: IrcMessage) -> (r: Result<PongMessage, ServerMessageParseError>)
        ensures
            raw@.command != "PONG"@ ==> (r matches Err(e) && err_mismatched_command(e, raw@)),
            raw@.command == "PONG"@ ==> (r matches Ok(m) && m.raw == raw),
            r matches Err(e) ==> e.raw_view() == raw@,
    {
        if raw.command == "PONG".to_owned() {
            Ok(PongMessage { raw })
        } else {
            Err(ServerMessageParseError::MismatchedCommand(raw))
        }
    }
}

/// A chat message in a channel.
#[derive(Debug, PartialEq, Eq)]
pub struct PrivmsgMessage {
    pub channel_login: String,
    pub channel_id: String,
    pub message_text: String,
    pub reply: Option<Reply>,
    pub is_action: bool,
    pub is_first_msg: bool,
    pub is_returning_chatter: bool,
    pub is_highlighted: bool,
    pub is_mod: bool,
    pub is_subscriber: bool,
    pub sender: BasicUser,
    pub badge_info: Vec<Badge>,
    pub badges: Vec<Badge>,
    pub bits: Option<u64>,
    pub name_color: String,
    pub emotes: Vec<Emote>,
    pub message_id: String,
    pub deleted: bool,
    pub is_recent: bool,
    pub source_only: Option<bool>,
    pub source: Option<Source>,
    pub server_timestamp: u64,
    pub raw: IrcMessage,
}

/// A chat-message line is readable.
pub open spec fn privmsg_ok(m: LineView) -> bool {
    &&& channel_ok(m)
    &&& has_param(m, 1)
    &&& has_nonempty_tag(m, "room-id"@)
    &&& has_nonempty_tag(m, "user-id"@)
    &&& m.prefix matches Some(PrefixView::Full { .. })
    &&& has_nonempty_tag(m, "display-name"@)
    &&& has_tag(m, "badge-info"@) && badges_tag_ok(tag_val(m, "badge-info"@))
    &&& has_tag(m, "badges"@) && badges_tag_ok(tag_val(m, "badges"@))
    &&& opt_unsigned_tag_ok(m, "bits"@, u64::MAX as int)
    &&& has_tag(m, "color"@)
    &&& has_tag(m, "emotes"@) && emotes_tag_ok(tag_val(m, "emotes"@))
    &&& unsigned_tag_ok(m, "tmi-sent-ts"@, u64::MAX as int)
    &&& has_nonempty_tag(m, "id"@)
    &&& (reply_gate(m) ==> reply_ok(m))
    &&& unsigned_tag_ok(m, "mod"@, u8::MAX as int)
    &&& unsigned_tag_ok(m, "subscriber"@, u8::MAX as int)
    &&& opt_unsigned_tag_ok(m, "rm-deleted"@, u8::MAX as int)
    &&& opt_unsigned_tag_ok(m, "historical"@, u8::MAX as int)
    &&& (source_gate(m) ==> source_ok(m))
}

impl PrivmsgMessage {
    /// Reads a `PRIVMSG` line.
    pub fn try_from(raw: IrcMessage) -> (r: Result<PrivmsgMessage, ServerMessageParseError>)
        ensures
            raw@.command != "PRIVMSG"@ ==> (r matches Err(e) && err_mismatched_command(e, raw@)),
            raw@.command == "PRIVMSG"@ ==> ((r is Ok) <==> privmsg_ok(raw@)),
            r matches Ok(m) ==> {
                &&& raw@.command == "PRIVMSG"@
                &&& m.raw == raw
                &&& m.channel_login@ == channel_login_of(raw@)
                &&& m.channel_id@ == tag_val(raw@, "room-id"@)
                &&& m.message_text@ == message_text_of(param(raw@, 1))
                &&& m.is_action == action_wrapped(param(raw@, 1))
                &&& m.sender.id@ == tag_val(raw@, "user-id"@)
                &&& raw@.prefix matches Some(PrefixView::Full { nick, .. }) && m.sender.login@
                    == nick
                &&& m.sender.name@ == tag_val(raw@, "display-name"@)
                &&& badge_views(m.badge_info@) == badges_of(tag_val(raw@, "badge-info"@))
                &&& badge_views(m.badges@) == badges_of(tag_val(raw@, "badges"@))
                &&& match m.bits {
                    Some(b) => has_tag(raw@, "bits"@) && b == unsigned_tag_val(raw@, "bits"@),
                    None => !has_tag(raw@, "bits"@),
                }
                &&& m.name_color@ == tag_val(raw@, "color"@)
                &&& sorted_by_start(emote_views(m.emotes@))
                &&& emote_views(m.emotes@).to_multiset() == emotes_of(
                    tag_val(raw@, "emotes"@),
                    message_text_of(param(raw@, 1)),
                ).to_multiset()
                &&& m.server_timestamp == unsigned_tag_val(raw@, "tmi-sent-ts"@)
                &&& m.message_id@ == tag_val(raw@, "id"@)
                &&& m.is_first_msg == (unsigned_tag_ok(raw@, "first-msg"@, u8::MAX as int)
                    && bool_tag_val(raw@, "first-msg"@))
                &&& m.is_returning_chatter == (unsigned_tag_ok(
                    raw@,
                    "returning-chatter"@,
                    u8::MAX as int,
                ) && bool_tag_val(raw@, "returning-chatter"@))
                &&& m.is_highlighted == (has_tag(raw@, "msg-id"@) && tag_val(raw@, "msg-id"@)
                    == "highlighted-message"@)
                &&& m.is_mod == bool_tag_val(raw@, "mod"@)
                &&& m.is_subscriber == bool_tag_val(raw@, "subscriber"@)
                &&& m.deleted == (has_tag(raw@, "rm-deleted"@) && bool_tag_val(raw@, "rm-deleted"@))
                &&& m.is_recent == (has_tag(raw@, "historical"@) && bool_tag_val(
                    raw@,
                    "historical"@,
                ))
                &&& match m.source_only {
                    Some(b) => unsigned_tag_ok(raw@, "source-only"@, u8::MAX as int) && b
                        == bool_tag_val(raw@, "source-only"@),
                    None => !unsigned_tag_ok(raw@, "source-only"@, u8::MAX as int),
                }
                &&& match m.reply {
                    Some(rep) => reply_gate(raw@) && reply_of(raw@, rep),
                    None => !reply_gate(raw@),
                }
                &&& match m.source {
                    Some(src) => source_gate(raw@) && source_of(raw@, src),
                    None => !source_gate(raw@),
                }
            },
            r matches Err(e) ==> e.raw_view() == raw@,
    {
        if !(raw.command == "PRIVMSG".to_owned()) {
            return Err(ServerMessageParseError::MismatchedCommand(raw));
        }
        let (message_text, is_action) = match raw.try_get_message_text() {
            Ok(v) => v,
            Err(e) => {
                return Err(e);
            },
        };
        let is_highlighted = match raw.try_get_tag_value("msg-id") {
            Ok(id) => *id == "highlighted-message".to_owned(),
            Err(_) => false,
        };
        let channel_login = match raw.try_get_channel_login() {
            Ok(v) => v,
            Err(e) => {
                return Err(e);
            },
        };
        let channel_id = match raw.try_get_nonempty_tag_value("room-id") {
            Ok(v) => v.clone(),
            Err(e) => {
                return Err(e);
            },
        };
        let sender_id = match raw.try_get_nonempty_tag_value("user-id") {
            Ok(v) => v.clone(),
            Err(e) => {
                return Err(e);
            },
        };
        let sender_login = match raw.try_get_prefix_nickname() {
            Ok(v) => v.clone(),
            Err(e) => {
                return Err(e);
            },
        };
        let sender_name = match raw.try_get_nonempty_tag_value("display-name") {
            Ok(v) => v.clone(),
            Err(e) => {
                return Err(e);
            },
        };
        let badge_info = match raw.try_get_badges("badge-info") {
            Ok(v) => v,
            Err(e) => {
                return Err(e);
            },
        };
        let badges = match raw.try_get_badges("badges") {
            Ok(v) => v,
            Err(e) => {
                return Err(e);
            },
        };
        let bits = match raw.try_get_optional_u64("bits") {
            Ok(v) => v,
            Err(e) => {
                return Err(e);
            },
        };
        let name_color = match raw.try_get_color("color") {
            Ok(v) => v.clone(),
            Err(e) => {
                return Err(e);
            },
        };
        let emotes = match raw.try_get_emotes("emotes", message_text.as_str()) {
            Ok(v) => v,
            Err(e) => {
                return Err(e);
            },
        };
        let server_timestamp = match raw.try_get_timestamp("tmi-sent-ts") {
            Ok(v) => v,
            Err(e) => {
                return Err(e);
            },
        };
        let message_id = match raw.try_get_nonempty_tag_value("id") {
            Ok(v) => v.clone(),
            Err(e) => {
                return Err(e);
            },
        };
        let reply = match raw.try_get_optional_reply() {
            Ok(v) => v,
            Err(e) => {
                return Err(e);
            },
        };
        let is_first_msg = match raw.try_get_bool("first-msg") {
            Ok(v) => v,
            Err(_) => false,
        };
        let is_returning_chatter = match raw.try_get_bool("returning-chatter") {
            Ok(v) => v,
            Err(_) => false,
        };
        let is_mod = match raw.try_get_bool("mod") {
            Ok(v) => v,
            Err(e) => {
                return Err(e);
            },
        };
        let is_subscriber = match raw.try_get_bool("subscriber") {
            Ok(v) => v,
            Err(e) => {
                return Err(e);
            },
        };
        let deleted = match raw.try_get_optional_bool("rm-deleted") {
            Ok(v) => v.unwrap_or(false),
            Err(e) => {
                return Err(e);
            },
        };
        let is_recent = match raw.try_get_optional_bool("historical") {
            Ok(v) => v.unwrap_or(false),
            Err(e) => {
                return Err(e);
            },
        };
        let source_only = match raw.try_get_bool("source-only") {
            Ok(v) => Some(v),
            Err(_) => None,
        };
        let source = match raw.try_get_source() {
            Ok(v) => v,
            Err(e) => {
                return Err(e);
            },
        };
        Ok(
            PrivmsgMessage {
                channel_login,
                channel_id,
                message_text,
                reply,
                is_action,
                is_first_msg,
                is_returning_chatter,
                is_highlighted,
                is_mod,
                is_subscriber,
                sender: BasicUser { id: sender_id, login: sender_login, name: sender_name },
                badge_info,
                badges,
                bits,
                name_color,
                emotes,
                message_id,
                deleted,
                is_recent,
                source_only,
                source,
                server_timestamp,
                raw,
            },
        )
    }
}

/// A channel's room-mode state.
#[derive(Debug, PartialEq, Eq)]
pub struct RoomStateMessage {
    pub channel_login: String,
    pub channel_id: String,
    pub emote_only: Option<bool>,
    pub followers_only: Option<i64>,
    pub unique_mode: Option<bool>,
    pub slow_mode: Option<u64>,
    pub subscribers_only: Option<bool>,
    pub is_recent: bool,
    pub raw: IrcMessage,
}

/// A room-state line is readable.
pub open spec fn room_state_ok(m: LineView) -> bool {
    &&& channel_ok(m)
    &&& has_nonempty_tag(m, "room-id"@)
    &&& opt_unsigned_tag_ok(m, "emote-only"@, u8::MAX as int)
    &&& (has_tag(m, "followers-only"@) ==> (tag_val(m, "followers-only"@).len() > 0
        && crate::num::signed_ok(tag_val(m, "followers-only"@), i64::MIN as int, i64::MAX as int)))
    &&& opt_unsigned_tag_ok(m, "r9k"@, u8::MAX as int)
    &&& opt_unsigned_tag_ok(m, "slow"@, u64::MAX as int)
    &&& opt_unsigned_tag_ok(m, "subs-only"@, u8::MAX as int)
    &&& opt_unsigned_tag_ok(m, "historical"@, u8::MAX as int)
}

impl RoomStateMessage {
    /// Reads a `ROOMSTATE` line.
    pub fn try_from(raw: IrcMessage) -> (r: Result<RoomStateMessage, ServerMessageParseError>)
        ensures
            raw@.command != "ROOMSTATE"@ ==> (r matches Err(e) && err_mismatched_command(e, raw@)),
            raw@.command == "ROOMSTATE"@ ==> ((r is Ok) <==> room_state_ok(raw@)),
            r matches Ok(m) ==> {
                &&& raw@.command == "ROOMSTATE"@
                &&& m.raw == raw
                &&& m.channel_login@ == channel_login_of(raw@)
                &&& m.channel_id@ == tag_val(raw@, "room-id"@)
                &&& match m.emote_only {
                    Some(b) => has_tag(raw@, "emote-only"@) && b == bool_tag_val(
                        raw@,
                        "emote-only"@,
                    ),
                    None => !has_tag(raw@, "emote-only"@),
                }
                &&& match m.followers_only {
                    Some(v) => has_tag(raw@, "followers-only"@) && v == crate::num::signed_val(
                        tag_val(raw@, "followers-only"@),
                    ),
                    None => !has_tag(raw@, "followers-only"@),
                }
                &&& match m.unique_mode {
                    Some(b) => has_tag(raw@, "r9k"@) && b == bool_tag_val(raw@, "r9k"@),
                    None => !has_tag(raw@, "r9k"@),
                }
                &&& match m.slow_mode {
                    Some(v) => has_tag(raw@, "slow"@) && v == unsigned_tag_val(raw@, "slow"@),
                    None => !has_tag(raw@, "slow"@),
                }
                &&& match m.subscribers_only {
                    Some(b) => has_tag(raw@, "subs-only"@) && b == bool_tag_val(
                        raw@,
                        "subs-only"@,
                    ),
                    None => !has_tag(raw@, "subs-only"@),
                }
                &&& m.is_recent == (has_tag(raw@, "historical"@) && bool_tag_val(
                    raw@,
                    "historical"@,
                ))
            },
            r matches Err(e) ==> e.raw_view() == raw@,
    {
        if !(raw.command == "ROOMSTATE".to_owned()) {
            return Err(ServerMessageParseError::MismatchedCommand(raw));
        }
        let channel_login = match raw.try_get_channel_login() {
            Ok(v) => v,
            Err(e) => {
                return Err(e);
            },
        };
        let channel_id = match raw.try_get_nonempty_tag_value("room-id") {
            Ok(v) => v.clone(),
            Err(e) => {
                return Err(e);
            },
        };
        let emote_only = match raw.try_get_optional_bool("emote-only") {
            Ok(v) => v,
            Err(e) => {
                return Err(e);
            },
        };
        let followers_only = match raw.try_get_optional_i64("followers-only") {
            Ok(v) => v,
            Err(e) => {
                return Err(e);
            },
        };
        let unique_mode = match raw.try_get_optional_bool("r9k") {
            Ok(v) => v,
            Err(e) => {
                return Err(e);
            },
        };
        let slow_mode = match raw.try_get_optional_u64("slow") {
            Ok(v) => v,
            Err(e) => {
                return Err(e);
            },
        };
        let subscribers_only = match raw.try_get_optional_bool("subs-only") {
            Ok(v) => v,
            Err(e) => {
                return Err(e);
            },
        };
        let is_recent = match raw.try_get_optional_bool("historical") {
            Ok(v) => v.unwrap_or(false),
            Err(e) => {
                return Err(e);
            },
        };
        Ok(
            RoomStateMessage {
                channel_login,
                channel_id,
                emote_only,
                followers_only,
                unique_mode,
                slow_mode,
                subscribers_only,
                is_recent,
                raw,
            },
        )
    }
}

/// The logged-in user's state within one channel.
#[derive(Debug, PartialEq, Eq)]
pub struct UserStateMessage {
    pub channel_login: String,
    pub user_name: String,
    pub badge_info: Vec<Badge>,
    pub badges: Vec<Badge>,
    pub emote_sets: Vec<String>,
    pub name_color: String,
    pub raw: IrcMessage,
}

/// A user-state line is readable.
pub open spec fn user_state_ok(m: LineView) -> bool {
    &&& channel_ok(m)
    &&& has_nonempty_tag(m, "display-name"@)
    &&& has_tag(m, "badge-info"@) && badges_tag_ok(tag_val(m, "badge-info"@))
    &&& has_tag(m, "badges"@) && badges_tag_ok(tag_val(m, "badges"@))
    &&& has_tag(m, "emote-sets"@)
    &&& has_tag(m, "color"@)
}

impl UserStateMessage {
    /// Reads a `USERSTATE` line.
    pub fn try_from(raw: IrcMessage) -> (r: Result<UserStateMessage, ServerMessageParseError>)
        ensures
            raw@.command != "USERSTATE"@ ==> (r matches Err(e) && err_mismatched_command(e, raw@)),
            raw@.command == "USERSTATE"@ ==> ((r is Ok) <==> user_state_ok(raw@)),
            r matches Ok(m) ==> {
                &&& raw@.command == "USERSTATE"@
                &&& m.raw == raw
                &&& m.channel_login@ == channel_login_of(raw@)
                &&& m.user_name@ == tag_val(raw@, "display-name"@)
                &&& badge_views(m.badge_info@) == badges_of(tag_val(raw@, "badge-info"@))
                &&& badge_views(m.badges@) == badges_of(tag_val(raw@, "badges"@))
                &&& m.emote_sets.deep_view() == emote_sets_of(tag_val(raw@, "emote-sets"@))
                &&& m.name_color@ == tag_val(raw@, "color"@)
            },
            r matches Err(e) ==> e.raw_view() == raw@,
    {
        if !(raw.command == "USERSTATE".to_owned()) {
            return Err(ServerMessageParseError::MismatchedCommand(raw));
        }
        let channel_login = match raw.try_get_channel_login() {
            Ok(v) => v,
            Err(e) => {
                return Err(e);
            },
        };
        let user_name = match raw.try_get_nonempty_tag_value("display-name") {
            Ok(v) => v.clone(),
            Err(e) => {
                return Err(e);
            },
        };
        let badge_info = match raw.try_get_badges("badge-info") {
            Ok(v) => v,
            Err(e) => {
                return Err(e);
            },
        };
        let badges = match raw.try_get_badges("badges") {
            Ok(v) => v,
            Err(e) => {
                return Err(e);
            },
        };
        let emote_sets = match raw.try_get_emote_sets("emote-sets") {
            Ok(v) => v,
            Err(e) => {
                return Err(e);
            },
        };
        let name_color = match raw.try_get_color("color") {
            Ok(v) => v.clone(),
            Err(e) => {
                return Err(e);
            },
        };
        Ok(
            UserStateMessage {
                channel_login,
                user_name,
                badge_info,
                badges,
                emote_sets,
                name_color,
                raw,
            },
        )
    }
}

/// A private message to the logged-in user.
#[derive(Debug, PartialEq, Eq)]
pub struct WhisperMessage {
    pub recipient_login: String,
    pub sender: BasicUser,
    pub message_id: String,
    pub message_text: String,
    pub name_color: String,
    pub badges: Vec<Badge>,
    pub emotes: Vec<Emote>,
    pub raw: IrcMessage,
}

/// A whisper line is readable.
pub open spec fn whisper_ok(m: LineView) -> bool {
    &&& has_param(m, 0)
    &&& has_param(m, 1)
    &&& has_nonempty_tag(m, "user-id"@)
    &&& m.prefix matches Some(PrefixView::Full { .. })
    &&& has_nonempty_tag(m, "display-name"@)
    &&& has_nonempty_tag(m, "message-id"@)
    &&& has_tag(m, "color"@)
    &&& has_tag(m, "badges"@) && badges_tag_ok(tag_val(m, "badges"@))
    &&& has_tag(m, "emotes"@) && emotes_tag_ok(tag_val(m, "emotes"@))
}

impl WhisperMessage {
    /// Reads a `WHISPER` line.
    pub fn try_from(raw: IrcMessage) -> (r: Result<WhisperMessage, ServerMessageParseError>)
        ensures
            raw@.command != "WHISPER"@ ==> (r matches Err(e) && err_mismatched_command(e, raw@)),
            raw@.command == "WHISPER"@ ==> ((r is Ok) <==> whisper_ok(raw@)),
            r matches Ok(m) ==> {
                &&& raw@.command == "WHISPER"@
                &&& m.raw == raw
                &&& m.recipient_login@ == param(raw@, 0)
                &&& m.message_text@ == param(raw@, 1)
                &&& m.sender.id@ == tag_val(raw@, "user-id"@)
                &&& raw@.prefix matches Some(PrefixView::Full { nick, .. }) && m.sender.login@
                    == nick
                &&& m.sender.name@ == tag_val(raw@, "display-name"@)
                &&& m.message_id@ == tag_val(raw@, "message-id"@)
                &&& m.name_color@ == tag_val(raw@, "color"@)
                &&& badge_views(m.badges@) == badges_of(tag_val(raw@, "badges"@))
                &&& sorted_by_start(emote_views(m.emotes@))
                &&& emote_views(m.emotes@).to_multiset() == emotes_of(
                    tag_val(raw@, "emotes"@),
                    param(raw@, 1),
                ).to_multiset()
            },
            r matches Err(e) ==> e.raw_view() == raw@,
    {
        if !(raw.command == "WHISPER".to_owned()) {
            return Err(ServerMessageParseError::MismatchedCommand(raw));
        }
        let message_text = match raw.try_get_param(1) {
            Ok(v) => v.clone(),
            Err(e) => {
                return Err(e);
            },
        };
        let emotes = match raw.try_get_emotes("emotes", message_text.as_str()) {
            Ok(v) => v,
            Err(e) => {
                return Err(e);
            },
        };
        let recipient_login = match raw.try_get_param(0) {
            Ok(v) => v.clone(),
            Err(e) => {
                return Err(e);
            },
        };
        let sender_id = match raw.try_get_nonempty_tag_value("user-id") {
            Ok(v) => v.clone(),
            Err(e) => {
                return Err(e);
            },
        };
        let sender_login = match raw.try_get_prefix_nickname() {
            Ok(v) => v.clone(),
            Err(e) => {
                return Err(e);
            },
        };
        let sender_name = match raw.try_get_nonempty_tag_value("display-name") {
            Ok(v) => v.clone(),
            Err(e) => {
                return Err(e);
            },
        };
        let message_id = match raw.try_get_nonempty_tag_value("message-id") {
            Ok(v) => v.clone(),
            Err(e) => {
                return Err(e);
            },
        };
        let name_color = match raw.try_get_color("color") {
            Ok(v) => v.clone(),
            Err(e) => {
                return Err(e);
            },
        };
        let badges = match raw.try_get_badges("badges") {
            Ok(v) => v,
            Err(e) => {
                return Err(e);
            },
        };
        Ok(
            WhisperMessage {
                recipient_login,
                sender: BasicUser { id: sender_id, login: sender_login, name: sender_name },
                message_id,
                message_text,
                name_color,
                badges,
                emotes,
                raw,
            },
        )
    }
}

/// The server asks the client to reconnect.
#[derive(Debug, PartialEq, Eq)]
pub struct ReconnectMessage {
    pub raw: IrcMessage,
}

impl ReconnectMessage {
    /// Reads a `RECONNECT` line.
    pub fn try_from(raw: IrcMessage) -> (r: Result<ReconnectMessage, ServerMessageParseError>)
        ensures
            raw@.command != "RECONNECT"@ ==> (r matches Err(e) && err_mismatched_command(e, raw@)),
            raw@.command == "RECONNECT"@ ==> (r matches Ok(m) && m.raw == raw),
            r matches Err(e) ==> e.raw_view() == raw@,
    {
        if raw.command == "RECONNECT".to_owned() {
            Ok(ReconnectMessage { raw })
        } else {
            Err(ServerMessageParseError::MismatchedCommand(raw))
        }
    }
}

} // verus!

verus! {

/// A raw line kept opaque behind the fallback variant.
#[derive(Debug, PartialEq, Eq)]
pub struct HiddenIrcMessage(pub IrcMessage);

/// The closed set of typed events, with a fallback for commands outside
/// the known set.
#[derive(Debug, PartialEq, Eq)]
#[non_exhaustive]
pub enum ServerMessage {
    ClearChat(ClearChatMessage),
    ClearMsg(ClearMsgMessage),
    GlobalUserState(GlobalUserStateMessage),
    Join(JoinMessage),
    Notice(NoticeMessage),
    Part(PartMessage),
    Ping(PingMessage),
    Pong(PongMessage),
    Privmsg(PrivmsgMessage),
    Reconnect(ReconnectMessage),
    RoomState(RoomStateMessage),
    UserNotice(UserNoticeMessage),
    UserState(UserStateMessage),
    Whisper(WhisperMessage),
    Generic(HiddenIrcMessage),
}

/// The command names the dispatcher knows.
pub open spec fn known_command(c: Seq<char>) -> bool {
    ||| c == "CLEARCHAT"@
    ||| c == "CLEARMSG"@
    ||| c == "GLOBALUSERSTATE"@
    ||| c == "JOIN"@
    ||| c == "NOTICE"@
    ||| c == "PART"@
    ||| c == "PING"@
    ||| c == "PONG"@
    ||| c == "PRIVMSG"@
    ||| c == "RECONNECT"@
    ||| c == "ROOMSTATE"@
    ||| c == "USERNOTICE"@
    ||| c == "USERSTATE"@
    ||| c == "WHISPER"@
}

/// A line can be read as a typed event: a known command must satisfy its
/// constructor's condition; an unknown one always can, as the fallback.
pub open spec fn parse_ok(m: LineView) -> bool {
    if m.command == "CLEARCHAT"@ {
        clear_chat_ok(m)
    } else if m.command == "CLEARMSG"@ {
        clear_msg_ok(m)
    } else if m.command == "GLOBALUSERSTATE"@ {
        global_user_state_ok(m)
    } else if m.command == "JOIN"@ {
        join_ok(m)
    } else if m.command == "NOTICE"@ {
        notice_ok(m)
    } else if m.command == "PART"@ {
        join_ok(m)
    } else if m.command == "PING"@ {
        true
    } else if m.command == "PONG"@ {
        true
    } else if m.command == "PRIVMSG"@ {
        privmsg_ok(m)
    } else if m.command == "RECONNECT"@ {
        true
    } else if m.command == "ROOMSTATE"@ {
        room_state_ok(m)
    } else if m.command == "USERNOTICE"@ {
        user_notice_ok(m)
    } else if m.command == "USERSTATE"@ {
        user_state_ok(m)
    } else if m.command == "WHISPER"@ {
        whisper_ok(m)
    } else {
        true
    }
}

impl ServerMessage {
    /// The raw line every variant retains.
    pub open spec fn raw_of(self) -> IrcMessage {
        match self {
            ServerMessage::ClearChat(msg) => msg.raw,
            ServerMessage::ClearMsg(msg) => msg.raw,
            ServerMessage::GlobalUserState(msg) => msg.raw,
            ServerMessage::Join(msg) => msg.raw,
            ServerMessage::Notice(msg) => msg.raw,
            ServerMessage::Part(msg) => msg.raw,
            ServerMessage::Ping(msg) => msg.raw,
            ServerMessage::Pong(msg) => msg.raw,
            ServerMessage::Privmsg(msg) => msg.raw,
            ServerMessage::Reconnect(msg) => msg.raw,
            ServerMessage::RoomState(msg) => msg.raw,
            ServerMessage::UserNotice(msg) => msg.raw,
            ServerMessage::UserState(msg) => msg.raw,
            ServerMessage::Whisper(msg) => msg.raw,
            ServerMessage::Generic(msg) => msg.0,
        }
    }

    /// The variant agrees with the raw line's command name; the fallback
    /// carries exactly the commands outside the known set.
    pub open spec fn variant_matches(self, m: LineView) -> bool {
        match self {
            ServerMessage::ClearChat(_) => m.command == "CLEARCHAT"@,
            ServerMessage::ClearMsg(_) => m.command == "CLEARMSG"@,
            ServerMessage::GlobalUserState(_) => m.command == "GLOBALUSERSTATE"@,
            ServerMessage::Join(_) => m.command == "JOIN"@,
            ServerMessage::Notice(_) => m.command == "NOTICE"@,
            ServerMessage::Part(_) => m.command == "PART"@,
            ServerMessage::Ping(_) => m.command == "PING"@,
            ServerMessage::Pong(_) => m.command == "PONG"@,
            ServerMessage::Privmsg(_) => m.command == "PRIVMSG"@,
            ServerMessage::Reconnect(_) => m.command == "RECONNECT"@,
            ServerMessage::RoomState(_) => m.command == "ROOMSTATE"@,
            ServerMessage::UserNotice(_) => m.command == "USERNOTICE"@,
            ServerMessage::UserState(_) => m.command == "USERSTATE"@,
            ServerMessage::Whisper(_) => m.command == "WHISPER"@,
            ServerMessage::Generic(_) => !known_command(m.command),
        }
    }

    /// Reads a raw line as a typed event. A known command is parsed by its
    /// constructor; an unknown command is never an error and degrades to
    /// the fallback variant. A successful parse retains the raw line
    /// unchanged, so converting the event back recovers it exactly.
    #[verifier::rlimit(100)]
    pub fn try_from(raw: IrcMessage) -> (r: Result<ServerMessage, ServerMessageParseError>)
        ensures
            (r is Ok) <==> parse_ok(raw@),
            r matches Ok(msg) ==> msg.raw_of() == raw && msg.variant_matches(raw@),
            !known_command(raw@.command) ==> (r matches Ok(msg) && msg matches
                ServerMessage::Generic(h) && h.0 == raw),
            r matches Err(e) ==> e.raw_view() == raw@,
    {
        if raw.command == "CLEARCHAT".to_owned() {
            match ClearChatMessage::try_from(raw) {
                Ok(m) => Ok(ServerMessage::ClearChat(m)),
                Err(e) => Err(e),
            }
        } else if raw.command == "CLEARMSG".to_owned() {
            match ClearMsgMessage::try_from(raw) {
                Ok(m) => Ok(ServerMessage::ClearMsg(m)),
                Err(e) => Err(e),
            }
        } else if raw.command == "GLOBALUSERSTATE".to_owned() {
            match GlobalUserStateMessage::try_from(raw) {
                Ok(m) => Ok(ServerMessage::GlobalUserState(m)),
                Err(e) => Err(e),
            }
        } else if raw.command == "JOIN".to_owned() {
            match JoinMessage::try_from(raw) {
                Ok(m) => Ok(ServerMessage::Join(m)),
                Err(e) => Err(e),
            }
        } else if raw.command == "NOTICE".to_owned() {
            match NoticeMessage::try_from(raw) {
                Ok(m) => Ok(ServerMessage::Notice(m)),
                Err(e) => Err(e),
            }
        } else if raw.command == "PART".to_owned() {
            match PartMessage::try_from(raw) {
                Ok(m) => Ok(ServerMessage::Part(m)),
                Err(e) => Err(e),
            }
        } else if raw.command == "PING".to_owned() {
            match PingMessage::try_from(raw) {
                Ok(m) => Ok(ServerMessage::Ping(m)),
                Err(e) => Err(e),
            }
        } else if raw.command == "PONG".to_owned() {
            match PongMessage::try_from(raw) {
                Ok(m) => Ok(ServerMessage::Pong(m)),
                Err(e) => Err(e),
            }
        } else if raw.command == "PRIVMSG".to_owned() {
            match PrivmsgMessage::try_from(raw) {
                Ok(m) => Ok(ServerMessage::Privmsg(m)),
                Err(e) => Err(e),
            }
        } else if raw.command == "RECONNECT".to_owned() {
            match ReconnectMessage::try_from(raw) {
                Ok(m) => Ok(ServerMessage::Reconnect(m)),
                Err(e) => Err(e),
            }
        } else if raw.command == "ROOMSTATE".to_owned() {
            match RoomStateMessage::try_from(raw) {
                Ok(m) => Ok(ServerMessage::RoomState(m)),
                Err(e) => Err(e),
            }
        } else if raw.command == "USERNOTICE".to_owned() {
            match UserNoticeMessage::try_from(raw) {
                Ok(m) => Ok(ServerMessage::UserNotice(m)),
                Err(e) => Err(e),
            }
        } else if raw.command == "USERSTATE".to_owned() {
            match UserStateMessage::try_from(raw) {
                Ok(m) => Ok(ServerMessage::UserState(m)),
                Err(e) => Err(e),
            }
        } else if raw.command == "WHISPER".to_owned() {
            match WhisperMessage::try_from(raw) {
                Ok(m) => Ok(ServerMessage::Whisper(m)),
                Err(e) => Err(e),
            }
        } else {
            Ok(ServerMessage::Generic(HiddenIrcMessage(raw)))
        }
    }

    /// A borrowed view of the retained raw line.
    pub fn raw(&self) -> (r: &IrcMessage)
        ensures
            *r == self.raw_of(),
    {
        match self {
            ServerMessage::ClearChat(msg) => &msg.raw,
            ServerMessage::ClearMsg(msg) => &msg.raw,
            ServerMessage::GlobalUserState(msg) => &msg.raw,
            ServerMessage::Join(msg) => &msg.raw,
            ServerMessage::Notice(msg) => &msg.raw,
            ServerMessage::Part(msg) => &msg.raw,
            ServerMessage::Ping(msg) => &msg.raw,
            ServerMessage::Pong(msg) => &msg.raw,
            ServerMessage::Privmsg(msg) => &msg.raw,
            ServerMessage::Reconnect(msg) => &msg.raw,
            ServerMessage::RoomState(msg) => &msg.raw,
            ServerMessage::UserNotice(msg) => &msg.raw,
            ServerMessage::UserState(msg) => &msg.raw,
            ServerMessage::Whisper(msg) => &msg.raw,
            ServerMessage::Generic(msg) => &msg.0,
        }
    }

    /// Takes the retained raw line back out; total and lossless for every
    /// variant.
    pub fn into_raw(self) -> (r: IrcMessage)
        ensures
            r == self.raw_of(),
    {
        match self {
            ServerMessage::ClearChat(msg) => msg.raw,
            ServerMessage::ClearMsg(msg) => msg.raw,
            ServerMessage::GlobalUserState(msg) => msg.raw,
            ServerMessage::Join(msg) => msg.raw,
            ServerMessage::Notice(msg) => msg.raw,
            ServerMessage::Part(msg) => msg.raw,
            ServerMessage::Ping(msg) => msg.raw,
            ServerMessage::Pong(msg) => msg.raw,
            ServerMessage::Privmsg(msg) => msg.raw,
            ServerMessage::Reconnect(msg) => msg.raw,
            ServerMessage::RoomState(msg) => msg.raw,
            ServerMessage::UserNotice(msg) => msg.raw,
            ServerMessage::UserState(msg) => msg.raw,
            ServerMessage::Whisper(msg) => msg.raw,
            ServerMessage::Generic(msg) => msg.0,
        }
    }

    /// Wraps a raw line in the fallback variant.
    pub fn new_generic(message: IrcMessage) -> (r: ServerMessage)
        ensures
            r matches ServerMessage::Generic(h) && h.0 == message,
    {
        ServerMessage::Generic(HiddenIrcMessage(message))
    }
}

} // verus!

