//! Typed projections shared by several chat events: users, badges, emotes
//! and reply metadata.

use vstd::prelude::*;

verus! {

/// A chat user: the numeric id, the login name and the display name.
#[derive(Debug, PartialEq, Eq)]
pub struct BasicUser {
    pub id: String,
    pub login: String,
    pub name: String,
}

/// The mathematical shape of a user.
#[verifier::ext_equal]
pub struct BasicUserView {
    pub id: Seq<char>,
    pub login: Seq<char>,
    pub name: Seq<char>,
}

impl View for BasicUser {
    type V = BasicUserView;

    open spec fn view(&self) -> BasicUserView {
        BasicUserView { id: self.id@, login: self.login@, name: self.name@ }
    }
}

/// One emote use inside a message: the emote id, the half-open character
/// range it covers, and the covered text. Offsets count Unicode scalar
/// values, not bytes.
#[derive(Debug, PartialEq, Eq)]
pub struct Emote {
    pub id: String,
    pub char_range: core::ops::Range<usize>,
    pub code: String,
}

/// The mathematical shape of an emote use.
#[verifier::ext_equal]
pub struct EmoteView {
    pub id: Seq<char>,
    pub start: int,
    pub end: int,
    pub code: Seq<char>,
}

impl View for Emote {
    type V = EmoteView;

    open spec fn view(&self) -> EmoteView {
        EmoteView {
            id: self.id@,
            start: self.char_range.start as int,
            end: self.char_range.end as int,
            code: self.code@,
        }
    }
}

/// One badge: its name and its version.
#[derive(Debug, PartialEq, Eq)]
pub struct Badge {
    pub name: String,
    pub version: String,
}

/// The mathematical shape of a badge.
#[verifier::ext_equal]
pub struct BadgeView {
    pub name: Seq<char>,
    pub version: Seq<char>,
}

impl View for Badge {
    type V = BadgeView;

    open spec fn view(&self) -> BadgeView {
        BadgeView { name: self.name@, version: self.version@ }
    }
}

/// The message a reply answers.
#[derive(Debug, PartialEq, Eq)]
pub struct ReplyParent {
    pub message_id: String,
    pub message_text: String,
    pub user: BasicUser,
}

/// The thread a reply belongs to.
#[derive(Debug, PartialEq, Eq)]
pub struct ReplyThread {
    pub message_id: String,
    pub user: BasicUser,
}

/// Reply metadata of a message: the direct parent and the thread root.
#[derive(Debug, PartialEq, Eq)]
pub struct Reply {
    pub parent: ReplyParent,
    pub thread: ReplyThread,
}

/// Shared-chat source metadata of a message.
#[derive(Debug, PartialEq, Eq)]
pub struct Source {
    pub message_id: String,
    pub event_id: Option<String>,
    pub channel_id: String,
    pub badges: Vec<Badge>,
    pub badge_info: Vec<Badge>,
}

} // verus!
