//! The user-notice event: one command that multiplexes announcements,
//! subscriptions, gifts, raids and milestones, classified by a tag-borne
//! id with several special-cased ids.

use vstd::prelude::*;

use crate::extract::{
    badge_views, badges_of, badges_tag_ok, bool_tag_val, channel_login_of, channel_ok,
    emote_views, emotes_of, emotes_tag_ok, err_mismatched_command, has_nonempty_tag, has_param,
    has_tag, opt_unsigned_tag_ok, param, sorted_by_start, source_gate, source_of, source_ok, tag_val,
    unsigned_tag_ok, unsigned_tag_val, ServerMessageParseError,
};
use crate::line::{IrcMessage, LineView};
use crate::twitch::{Badge, BasicUser, Emote, Source};

verus! {

/// A gift-subscription promotion: how many gifts the promotion has given
/// and its name.
#[derive(Debug, PartialEq, Eq)]
pub struct SubGiftPromo {
    pub total_gifts: u64,
    pub promo_name: String,
}

/// Both promotion tags are readable when present.
pub open spec fn promo_ok(m: LineView) -> bool {
    &&& opt_unsigned_tag_ok(m, "msg-param-promo-gift-total"@, u64::MAX as int)
    &&& (has_tag(m, "msg-param-promo-name"@) ==> tag_val(m, "msg-param-promo-name"@).len() > 0)
}

/// The promotion a line denotes: present only when both tags are.
pub open spec fn promo_of(m: LineView, p: Option<SubGiftPromo>) -> bool {
    if has_tag(m, "msg-param-promo-gift-total"@) && has_tag(m, "msg-param-promo-name"@) {
        p matches Some(pr) && pr.total_gifts == unsigned_tag_val(m, "msg-param-promo-gift-total"@)
            && pr.promo_name@ == tag_val(m, "msg-param-promo-name"@)
    } else {
        p is None
    }
}

impl SubGiftPromo {
    /// Reads the promotion tags when both are present; absence of either
    /// is no error.
    pub fn parse_if_present(raw: &IrcMessage) -> (r: Result<
        Option<SubGiftPromo>,
        ServerMessageParseError,
    >)
        ensures
            match r {
                Ok(p) => promo_ok(raw@) && promo_of(raw@, p),
                Err(e) => !promo_ok(raw@) && e.raw_view() == raw@,
            },
    {
        let total = match raw.try_get_optional_u64("msg-param-promo-gift-total") {
            Ok(v) => v,
            Err(e) => {
                return Err(e);
            },
        };
        let name = match raw.try_get_optional_nonempty_tag_value("msg-param-promo-name") {
            Ok(Some(v)) => Some(v.clone()),
            Ok(None) => None,
            Err(e) => {
                return Err(e);
            },
        };
        match (total, name) {
            (Some(total_gifts), Some(promo_name)) => Ok(
                Some(SubGiftPromo { total_gifts, promo_name }),
            ),
            _ => Ok(None),
        }
    }
}

/// The sub-events a user notice can carry; ids with no mapping rule give
/// `Unknown`, never an error.
#[non_exhaustive]
#[derive(Debug, PartialEq, Eq)]
pub enum UserNoticeEvent {
    Announcement { color: String },
    StandardPayForward {
        is_prior_gifter_anonymous: bool,
        prior_gifter: BasicUser,
        recipient: BasicUser,
    },
    CommunityPayForward { gifter: BasicUser },
    CharityDonation {
        charity_name: String,
        donation_amount: u64,
        donation_currency: String,
        exponent: u64,
    },
    SubOrResub {
        is_resub: bool,
        cumulative_months: u64,
        streak_months: Option<u64>,
        multimonth_tenure: Option<u64>,
        multimonth_duration: Option<u64>,
        sub_plan: String,
        sub_plan_name: String,
    },
    Raid { viewer_count: u64, profile_image_url: String },
    Unraid,
    SubGift {
        is_sender_anonymous: bool,
        cumulative_months: u64,
        recipient: BasicUser,
        sub_plan: String,
        sub_plan_name: String,
        num_gifted_months: u64,
        sender_total_months: u64,
    },
    SubMysteryGift { mass_gift_count: u64, sender_total_gifts: Option<u64>, sub_plan: String },
    AnonSubMysteryGift { mass_gift_count: u64, sub_plan: String },
    PrimePaidUpgrade { sub_plan: String },
    GiftPaidUpgrade {
        gifter_login: String,
        gifter_name: String,
        promotion: Option<SubGiftPromo>,
    },
    AnonGiftPaidUpgrade { promotion: Option<SubGiftPromo> },
    Ritual { ritual_name: String },
    BitsBadgeTier { threshold: u64 },
    OneTapGiftRedeemed { bits: u32, gift_id: String },
    WatchStreak { streak: u32, points: u32 },
    Unknown,
}

/// The id used as the platform's anonymous-gifter sentinel.
pub open spec fn anon_gifter_id() -> Seq<char> {
    "274598607"@
}

/// The effective classification id: the nested source id when the primary
/// id says the notice was relayed from a shared chat.
pub open spec fn event_id_of(m: LineView) -> Seq<char> {
    if tag_val(m, "msg-id"@) == "sharedchatnotice"@ {
        tag_val(m, "source-msg-id"@)
    } else {
        tag_val(m, "msg-id"@)
    }
}

/// The classification id is readable.
pub open spec fn event_id_ok(m: LineView) -> bool {
    &&& has_nonempty_tag(m, "msg-id"@)
    &&& (tag_val(m, "msg-id"@) == "sharedchatnotice"@ ==> has_nonempty_tag(m, "source-msg-id"@))
}

/// Every tag the classified sub-event pulls is readable. The branches
/// mirror the classification: the anonymous mystery-gift rule fires
/// before the plain `submysterygift` rule.
pub open spec fn event_fields_ok(m: LineView) -> bool {
    let id = event_id_of(m);
    if id == "announcement"@ {
        has_nonempty_tag(m, "msg-param-color"@)
    } else if id == "standardpayforward"@ {
        &&& unsigned_tag_ok(m, "msg-param-prior-gifter-anonymous"@, u8::MAX as int)
        &&& has_nonempty_tag(m, "msg-param-prior-gifter-id"@)
        &&& has_nonempty_tag(m, "msg-param-prior-gifter-user-name"@)
        &&& has_nonempty_tag(m, "msg-param-prior-gifter-display-name"@)
        &&& has_nonempty_tag(m, "msg-param-recipient-id"@)
        &&& has_nonempty_tag(m, "msg-param-recipient-user-name"@)
        &&& has_nonempty_tag(m, "msg-param-recipient-display-name"@)
    } else if id == "communitypayforward"@ {
        &&& has_nonempty_tag(m, "msg-param-prior-gifter-id"@)
        &&& has_nonempty_tag(m, "msg-param-prior-gifter-user-name"@)
        &&& has_nonempty_tag(m, "msg-param-prior-gifter-display-name"@)
    } else if id == "charitydonation"@ {
        &&& has_nonempty_tag(m, "msg-param-charity-name"@)
        &&& unsigned_tag_ok(m, "msg-param-donation-amount"@, u64::MAX as int)
        &&& has_nonempty_tag(m, "msg-param-donation-currency"@)
        &&& unsigned_tag_ok(m, "msg-param-exponent"@, u64::MAX as int)
    } else if id == "sub"@ || id == "resub"@ {
        &&& unsigned_tag_ok(m, "msg-param-cumulative-months"@, u64::MAX as int)
        &&& unsigned_tag_ok(m, "msg-param-should-share-streak"@, u8::MAX as int)
        &&& (bool_tag_val(m, "msg-param-should-share-streak"@) ==> unsigned_tag_ok(
            m,
            "msg-param-streak-months"@,
            u64::MAX as int,
        ))
        &&& opt_unsigned_tag_ok(m, "msg-param-multimonth-tenure"@, u64::MAX as int)
        &&& opt_unsigned_tag_ok(m, "msg-param-multimonth-duration"@, u64::MAX as int)
        &&& has_nonempty_tag(m, "msg-param-sub-plan"@)
        &&& has_nonempty_tag(m, "msg-param-sub-plan-name"@)
    } else if id == "raid"@ {
        &&& unsigned_tag_ok(m, "msg-param-viewerCount"@, u64::MAX as int)
        &&& has_nonempty_tag(m, "msg-param-profileImageURL"@)
    } else if id == "unraid"@ {
        true
    } else if id == "subgift"@ || id == "anonsubgift"@ {
        &&& unsigned_tag_ok(m, "msg-param-months"@, u64::MAX as int)
        &&& has_nonempty_tag(m, "msg-param-recipient-id"@)
        &&& has_nonempty_tag(m, "msg-param-recipient-user-name"@)
        &&& has_nonempty_tag(m, "msg-param-recipient-display-name"@)
        &&& has_nonempty_tag(m, "msg-param-sub-plan"@)
        &&& has_nonempty_tag(m, "msg-param-sub-plan-name"@)
        &&& unsigned_tag_ok(m, "msg-param-gift-months"@, u64::MAX as int)
        &&& opt_unsigned_tag_ok(m, "msg-param-sender-count"@, u64::MAX as int)
    } else if id == "primepaidupgrade"@ {
        has_nonempty_tag(m, "msg-param-sub-plan"@)
    } else if (tag_val(m, "user-id"@) == anon_gifter_id() && id == "submysterygift"@) || id
        == "anonsubmysterygift"@ {
        &&& unsigned_tag_ok(m, "msg-param-mass-gift-count"@, u64::MAX as int)
        &&& has_nonempty_tag(m, "msg-param-sub-plan"@)
    } else if id == "submysterygift"@ {
        &&& unsigned_tag_ok(m, "msg-param-mass-gift-count"@, u64::MAX as int)
        &&& (tag_val(m, "login"@) != "twitch"@ ==> unsigned_tag_ok(
            m,
            "msg-param-sender-count"@,
            u64::MAX as int,
        ))
        &&& has_nonempty_tag(m, "msg-param-sub-plan"@)
    } else if id == "giftpaidupgrade"@ {
        &&& has_nonempty_tag(m, "msg-param-sender-login"@)
        &&& has_nonempty_tag(m, "msg-param-sender-name"@)
        &&& promo_ok(m)
    } else if id == "anongiftpaidupgrade"@ {
        promo_ok(m)
    } else if id == "ritual"@ {
        has_nonempty_tag(m, "msg-param-ritual-name"@)
    } else if id == "bitsbadgetier"@ {
        unsigned_tag_ok(m, "msg-param-threshold"@, u64::MAX as int)
    } else if id == "onetapgiftredeemed"@ {
        &&& unsigned_tag_ok(m, "msg-param-bits-spent"@, u32::MAX as int)
        &&& has_nonempty_tag(m, "msg-param-gift-id"@)
    } else if id == "viewermilestone"@ {
        &&& has_nonempty_tag(m, "msg-param-category"@)
        &&& (tag_val(m, "msg-param-category"@) == "watch-streak"@ ==> (unsigned_tag_ok(
            m,
            "msg-param-value"@,
            u32::MAX as int,
        ) && unsigned_tag_ok(m, "msg-param-copoReward"@, u32::MAX as int)))
    } else {
        true
    }
}

/// The sub-event a line denotes, branch for branch of the classification.
pub open spec fn user_notice_event_of(m: LineView, e: UserNoticeEvent) -> bool {
    let id = event_id_of(m);
    if id == "announcement"@ {
        e matches UserNoticeEvent::Announcement { color } && color@ == tag_val(
            m,
            "msg-param-color"@,
        )
    } else if id == "standardpayforward"@ {
        e matches UserNoticeEvent::StandardPayForward {
            is_prior_gifter_anonymous,
            prior_gifter,
            recipient,
        } && {
            &&& is_prior_gifter_anonymous == bool_tag_val(m, "msg-param-prior-gifter-anonymous"@)
            &&& prior_gifter.id@ == tag_val(m, "msg-param-prior-gifter-id"@)
            &&& prior_gifter.login@ == tag_val(m, "msg-param-prior-gifter-user-name"@)
            &&& prior_gifter.name@ == tag_val(m, "msg-param-prior-gifter-display-name"@)
            &&& recipient.id@ == tag_val(m, "msg-param-recipient-id"@)
            &&& recipient.login@ == tag_val(m, "msg-param-recipient-user-name"@)
            &&& recipient.name@ == tag_val(m, "msg-param-recipient-display-name"@)
        }
    } else if id == "communitypayforward"@ {
        e matches UserNoticeEvent::CommunityPayForward { gifter } && {
            &&& gifter.id@ == tag_val(m, "msg-param-prior-gifter-id"@)
            &&& gifter.login@ == tag_val(m, "msg-param-prior-gifter-user-name"@)
            &&& gifter.name@ == tag_val(m, "msg-param-prior-gifter-display-name"@)
        }
    } else if id == "charitydonation"@ {
        e matches UserNoticeEvent::CharityDonation {
            charity_name,
            donation_amount,
            donation_currency,
            exponent,
        } && {
            &&& charity_name@ == tag_val(m, "msg-param-charity-name"@)
            &&& donation_amount == unsigned_tag_val(m, "msg-param-donation-amount"@)
            &&& donation_currency@ == tag_val(m, "msg-param-donation-currency"@)
            &&& exponent == unsigned_tag_val(m, "msg-param-exponent"@)
        }
    } else if id == "sub"@ || id == "resub"@ {
        e matches UserNoticeEvent::SubOrResub {
            is_resub,
            cumulative_months,
            streak_months,
            multimonth_tenure,
            multimonth_duration,
            sub_plan,
            sub_plan_name,
        } && {
            &&& is_resub == (id == "resub"@)
            &&& cumulative_months == unsigned_tag_val(m, "msg-param-cumulative-months"@)
            &&& if bool_tag_val(m, "msg-param-should-share-streak"@) {
                streak_months matches Some(s) && s == unsigned_tag_val(
                    m,
                    "msg-param-streak-months"@,
                )
            } else {
                streak_months is None
            }
            &&& match multimonth_tenure {
                Some(v) => has_tag(m, "msg-param-multimonth-tenure"@) && v == unsigned_tag_val(
                    m,
                    "msg-param-multimonth-tenure"@,
                ),
                None => !has_tag(m, "msg-param-multimonth-tenure"@),
            }
            &&& match multimonth_duration {
                Some(v) => has_tag(m, "msg-param-multimonth-duration"@) && v == unsigned_tag_val(
                    m,
                    "msg-param-multimonth-duration"@,
                ),
                None => !has_tag(m, "msg-param-multimonth-duration"@),
            }
            &&& sub_plan@ == tag_val(m, "msg-param-sub-plan"@)
            &&& sub_plan_name@ == tag_val(m, "msg-param-sub-plan-name"@)
        }
    } else if id == "raid"@ {
        e matches UserNoticeEvent::Raid { viewer_count, profile_image_url } && {
            &&& viewer_count == unsigned_tag_val(m, "msg-param-viewerCount"@)
            &&& profile_image_url@ == tag_val(m, "msg-param-profileImageURL"@)
        }
    } else if id == "unraid"@ {
        e is Unraid
    } else if id == "subgift"@ || id == "anonsubgift"@ {
        e matches UserNoticeEvent::SubGift {
            is_sender_anonymous,
            cumulative_months,
            recipient,
            sub_plan,
            sub_plan_name,
            num_gifted_months,
            sender_total_months,
        } && {
            &&& is_sender_anonymous == (id == "anonsubgift"@ || tag_val(m, "user-id"@)
                == anon_gifter_id())
            &&& cumulative_months == unsigned_tag_val(m, "msg-param-months"@)
            &&& recipient.id@ == tag_val(m, "msg-param-recipient-id"@)
            &&& recipient.login@ == tag_val(m, "msg-param-recipient-user-name"@)
            &&& recipient.name@ == tag_val(m, "msg-param-recipient-display-name"@)
            &&& sub_plan@ == tag_val(m, "msg-param-sub-plan"@)
            &&& sub_plan_name@ == tag_val(m, "msg-param-sub-plan-name"@)
            &&& num_gifted_months == unsigned_tag_val(m, "msg-param-gift-months"@)
            &&& sender_total_months == (if has_tag(m, "msg-param-sender-count"@) {
                unsigned_tag_val(m, "msg-param-sender-count"@)
            } else {
                0
            })
        }
    } else if id == "primepaidupgrade"@ {
        e matches UserNoticeEvent::PrimePaidUpgrade { sub_plan } && sub_plan@ == tag_val(
            m,
            "msg-param-sub-plan"@,
        )
    } else if (tag_val(m, "user-id"@) == anon_gifter_id() && id == "submysterygift"@) || id
        == "anonsubmysterygift"@ {
        e matches UserNoticeEvent::AnonSubMysteryGift { mass_gift_count, sub_plan } && {
            &&& mass_gift_count == unsigned_tag_val(m, "msg-param-mass-gift-count"@)
            &&& sub_plan@ == tag_val(m, "msg-param-sub-plan"@)
        }
    } else if id == "submysterygift"@ {
        e matches UserNoticeEvent::SubMysteryGift {
            mass_gift_count,
            sender_total_gifts,
            sub_plan,
        } && {
            &&& mass_gift_count == unsigned_tag_val(m, "msg-param-mass-gift-count"@)
            &&& if tag_val(m, "login"@) != "twitch"@ || unsigned_tag_ok(
                m,
                "msg-param-sender-count"@,
                u64::MAX as int,
            ) {
                sender_total_gifts matches Some(v) && v == unsigned_tag_val(
                    m,
                    "msg-param-sender-count"@,
                )
            } else {
                sender_total_gifts is None
            }
            &&& sub_plan@ == tag_val(m, "msg-param-sub-plan"@)
        }
    } else if id == "giftpaidupgrade"@ {
        e matches UserNoticeEvent::GiftPaidUpgrade { gifter_login, gifter_name, promotion } && {
            &&& gifter_login@ == tag_val(m, "msg-param-sender-login"@)
            &&& gifter_name@ == tag_val(m, "msg-param-sender-name"@)
            &&& promo_of(m, promotion)
        }
    } else if id == "anongiftpaidupgrade"@ {
        e matches UserNoticeEvent::AnonGiftPaidUpgrade { promotion } && promo_of(m, promotion)
    } else if id == "ritual"@ {
        e matches UserNoticeEvent::Ritual { ritual_name } && ritual_name@ == tag_val(
            m,
            "msg-param-ritual-name"@,
        )
    } else if id == "bitsbadgetier"@ {
        e matches UserNoticeEvent::BitsBadgeTier { threshold } && threshold == unsigned_tag_val(
            m,
            "msg-param-threshold"@,
        )
    } else if id == "onetapgiftredeemed"@ {
        e matches UserNoticeEvent::OneTapGiftRedeemed { bits, gift_id } && {
            &&& bits == unsigned_tag_val(m, "msg-param-bits-spent"@)
            &&& gift_id@ == tag_val(m, "msg-param-gift-id"@)
        }
    } else if id == "viewermilestone"@ {
        if tag_val(m, "msg-param-category"@) == "watch-streak"@ {
            e matches UserNoticeEvent::WatchStreak { streak, points } && {
                &&& streak == unsigned_tag_val(m, "msg-param-value"@)
                &&& points == unsigned_tag_val(m, "msg-param-copoReward"@)
            }
        } else {
            e is Unknown
        }
    } else {
        e is Unknown
    }
}

/// The system message the line denotes: the `system-msg` tag, or, for an
/// announcement without one, parameter 1.
pub open spec fn system_message_ok(m: LineView) -> bool {
    has_nonempty_tag(m, "system-msg"@) || (event_id_of(m) == "announcement"@ && has_param(m, 1))
}

/// The denoted system message.
pub open spec fn system_message_of(m: LineView) -> Seq<char> {
    if has_nonempty_tag(m, "system-msg"@) {
        tag_val(m, "system-msg"@)
    } else {
        param(m, 1)
    }
}

/// An event in a channel, rendered to chat with a system message.
#[derive(Debug, PartialEq, Eq)]
pub struct UserNoticeMessage {
    pub channel_login: String,
    pub channel_id: String,
    pub sender: BasicUser,
    pub message_text: Option<String>,
    pub system_message: String,
    pub event: UserNoticeEvent,
    pub event_id: String,
    pub badge_info: Vec<Badge>,
    pub badges: Vec<Badge>,
    pub emotes: Vec<Emote>,
    pub name_color: String,
    pub message_id: String,
    pub deleted: bool,
    pub is_recent: bool,
    pub source_only: Option<bool>,
    pub source: Option<Source>,
    pub server_timestamp: u64,
    pub raw: IrcMessage,
}

/// A user-notice line is readable.
pub open spec fn user_notice_ok(m: LineView) -> bool {
    &&& has_nonempty_tag(m, "user-id"@)
    &&& has_nonempty_tag(m, "login"@)
    &&& has_nonempty_tag(m, "display-name"@)
    &&& event_id_ok(m)
    &&& event_fields_ok(m)
    &&& (has_param(m, 1) ==> (has_tag(m, "emotes"@) && emotes_tag_ok(tag_val(m, "emotes"@))))
    &&& system_message_ok(m)
    &&& channel_ok(m)
    &&& has_nonempty_tag(m, "room-id"@)
    &&& has_tag(m, "badge-info"@) && badges_tag_ok(tag_val(m, "badge-info"@))
    &&& has_tag(m, "badges"@) && badges_tag_ok(tag_val(m, "badges"@))
    &&& has_tag(m, "color"@)
    &&& has_nonempty_tag(m, "id"@)
    &&& opt_unsigned_tag_ok(m, "rm-deleted"@, u8::MAX as int)
    &&& opt_unsigned_tag_ok(m, "historical"@, u8::MAX as int)
    &&& (source_gate(m) ==> source_ok(m))
    &&& unsigned_tag_ok(m, "tmi-sent-ts"@, u64::MAX as int)
}

impl UserNoticeMessage {
    /// Classifies the sub-event once the ids and the sender are known.
    fn classify(raw: &IrcMessage, event_id: &String) -> (r: Result<
        UserNoticeEvent,
        ServerMessageParseError,
    >)
        requires
            event_id_ok(raw@),
            event_id@ == event_id_of(raw@),
            has_nonempty_tag(raw@, "user-id"@),
            has_nonempty_tag(raw@, "login"@),
        ensures
            match r {
                Ok(e) => event_fields_ok(raw@) && user_notice_event_of(raw@, e),
                Err(e) => !event_fields_ok(raw@) && e.raw_view() == raw@,
            },
    {
        if *event_id == "announcement".to_owned() {
            let color = match raw.try_get_nonempty_tag_value("msg-param-color") {
                Ok(v) => v.clone(),
                Err(e) => {
                    return Err(e);
                },
            };
            Ok(UserNoticeEvent::Announcement { color })
        } else if *event_id == "standardpayforward".to_owned() {
            let is_prior_gifter_anonymous = match raw.try_get_bool(
                "msg-param-prior-gifter-anonymous",
            ) {
                Ok(v) => v,
                Err(e) => {
                    return Err(e);
                },
            };
            let pg_id = match raw.try_get_nonempty_tag_value("msg-param-prior-gifter-id") {
                Ok(v) => v.clone(),
                Err(e) => {
                    return Err(e);
                },
            };
            let pg_login = match raw.try_get_nonempty_tag_value("msg-param-prior-gifter-user-name")
                {
                Ok(v) => v.clone(),
                Err(e) => {
                    return Err(e);
                },
            };
            let pg_name = match raw.try_get_nonempty_tag_value(
                "msg-param-prior-gifter-display-name",
            ) {
                Ok(v) => v.clone(),
                Err(e) => {
                    return Err(e);
                },
            };
            let rc_id = match raw.try_get_nonempty_tag_value("msg-param-recipient-id") {
                Ok(v) => v.clone(),
                Err(e) => {
                    return Err(e);
                },
            };
            let rc_login = match raw.try_get_nonempty_tag_value("msg-param-recipient-user-name") {
                Ok(v) => v.clone(),
                Err(e) => {
                    return Err(e);
                },
            };
            let rc_name = match raw.try_get_nonempty_tag_value("msg-param-recipient-display-name")
                {
                Ok(v) => v.clone(),
                Err(e) => {
                    return Err(e);
                },
            };
            Ok(
                UserNoticeEvent::StandardPayForward {
                    is_prior_gifter_anonymous,
                    prior_gifter: BasicUser { id: pg_id, login: pg_login, name: pg_name },
                    recipient: BasicUser { id: rc_id, login: rc_login, name: rc_name },
                },
            )
        } else if *event_id == "communitypayforward".to_owned() {
            let g_id = match raw.try_get_nonempty_tag_value("msg-param-prior-gifter-id") {
                Ok(v) => v.clone(),
                Err(e) => {
                    return Err(e);
                },
            };
            let g_login = match raw.try_get_nonempty_tag_value("msg-param-prior-gifter-user-name")
                {
                Ok(v) => v.clone(),
                Err(e) => {
                    return Err(e);
                },
            };
            let g_name = match raw.try_get_nonempty_tag_value(
                "msg-param-prior-gifter-display-name",
            ) {
                Ok(v) => v.clone(),
                Err(e) => {
                    return Err(e);
                },
            };
            Ok(
                UserNoticeEvent::CommunityPayForward {
                    gifter: BasicUser { id: g_id, login: g_login, name: g_name },
                },
            )
        } else if *event_id == "charitydonation".to_owned() {
            let charity_name = match raw.try_get_nonempty_tag_value("msg-param-charity-name") {
                Ok(v) => v.clone(),
                Err(e) => {
                    return Err(e);
                },
            };
            let donation_amount = match raw.try_get_u64("msg-param-donation-amount") {
                Ok(v) => v,
                Err(e) => {
                    return Err(e);
                },
            };
            let donation_currency = match raw.try_get_nonempty_tag_value(
                "msg-param-donation-currency",
            ) {
                Ok(v) => v.clone(),
                Err(e) => {
                    return Err(e);
                },
            };
            let exponent = match raw.try_get_u64("msg-param-exponent") {
                Ok(v) => v,
                Err(e) => {
                    return Err(e);
                },
            };
            Ok(
                UserNoticeEvent::CharityDonation {
                    charity_name,
                    donation_amount,
                    donation_currency,
                    exponent,
                },
            )
        } else if *event_id == "sub".to_owned() || *event_id == "resub".to_owned() {
            let cumulative_months = match raw.try_get_u64("msg-param-cumulative-months") {
                Ok(v) => v,
                Err(e) => {
                    return Err(e);
                },
            };
            let share_streak = match raw.try_get_bool("msg-param-should-share-streak") {
                Ok(v) => v,
                Err(e) => {
                    return Err(e);
                },
            };
            let streak_months = if share_streak {
                match raw.try_get_u64("msg-param-streak-months") {
                    Ok(v) => Some(v),
                    Err(e) => {
                        return Err(e);
                    },
                }
            } else {
                None
            };
            let multimonth_tenure = match raw.try_get_optional_u64("msg-param-multimonth-tenure") {
                Ok(v) => v,
                Err(e) => {
                    return Err(e);
                },
            };
            let multimonth_duration = match raw.try_get_optional_u64(
                "msg-param-multimonth-duration",
            ) {
                Ok(v) => v,
                Err(e) => {
                    return Err(e);
                },
            };
            let sub_plan = match raw.try_get_nonempty_tag_value("msg-param-sub-plan") {
                Ok(v) => v.clone(),
                Err(e) => {
                    return Err(e);
                },
            };
            let sub_plan_name = match raw.try_get_nonempty_tag_value("msg-param-sub-plan-name") {
                Ok(v) => v.clone(),
                Err(e) => {
                    return Err(e);
                },
            };
            Ok(
                UserNoticeEvent::SubOrResub {
                    is_resub: *event_id == "resub".to_owned(),
                    cumulative_months,
                    streak_months,
                    multimonth_tenure,
                    multimonth_duration,
                    sub_plan,
                    sub_plan_name,
                },
            )
        } else if *event_id == "raid".to_owned() {
            let viewer_count = match raw.try_get_u64("msg-param-viewerCount") {
                Ok(v) => v,
                Err(e) => {
                    return Err(e);
                },
            };
            let profile_image_url = match raw.try_get_nonempty_tag_value(
                "msg-param-profileImageURL",
            ) {
                Ok(v) => v.clone(),
                Err(e) => {
                    return Err(e);
                },
            };
            Ok(UserNoticeEvent::Raid { viewer_count, profile_image_url })
        } else if *event_id == "unraid".to_owned() {
            Ok(UserNoticeEvent::Unraid)
        } else if *event_id == "subgift".to_owned() || *event_id == "anonsubgift".to_owned() {
            let sender_id = match raw.try_get_nonempty_tag_value("user-id") {
                Ok(v) => v.clone(),
                Err(e) => {
                    return Err(e);
                },
            };
            let cumulative_months = match raw.try_get_u64("msg-param-months") {
                Ok(v) => v,
                Err(e) => {
                    return Err(e);
                },
            };
            let rc_id = match raw.try_get_nonempty_tag_value("msg-param-recipient-id") {
                Ok(v) => v.clone(),
                Err(e) => {
                    return Err(e);
                },
            };
            let rc_login = match raw.try_get_nonempty_tag_value("msg-param-recipient-user-name") {
                Ok(v) => v.clone(),
                Err(e) => {
                    return Err(e);
                },
            };
            let rc_name = match raw.try_get_nonempty_tag_value("msg-param-recipient-display-name")
                {
                Ok(v) => v.clone(),
                Err(e) => {
                    return Err(e);
                },
            };
            let sub_plan = match raw.try_get_nonempty_tag_value("msg-param-sub-plan") {
                Ok(v) => v.clone(),
                Err(e) => {
                    return Err(e);
                },
            };
            let sub_plan_name = match raw.try_get_nonempty_tag_value("msg-param-sub-plan-name") {
                Ok(v) => v.clone(),
                Err(e) => {
                    return Err(e);
                },
            };
            let num_gifted_months = match raw.try_get_u64("msg-param-gift-months") {
                Ok(v) => v,
                Err(e) => {
                    return Err(e);
                },
            };
            let sender_total_months = match raw.try_get_optional_u64("msg-param-sender-count") {
                Ok(v) => v.unwrap_or(0),
                Err(e) => {
                    return Err(e);
                },
            };
            Ok(
                UserNoticeEvent::SubGift {
                    is_sender_anonymous: *event_id == "anonsubgift".to_owned() || sender_id
                        == "274598607".to_owned(),
                    cumulative_months,
                    recipient: BasicUser { id: rc_id, login: rc_login, name: rc_name },
                    sub_plan,
                    sub_plan_name,
                    num_gifted_months,
                    sender_total_months,
                },
            )
        } else if *event_id == "primepaidupgrade".to_owned() {
            let sub_plan = match raw.try_get_nonempty_tag_value("msg-param-sub-plan") {
                Ok(v) => v.clone(),
                Err(e) => {
                    return Err(e);
                },
            };
            Ok(UserNoticeEvent::PrimePaidUpgrade { sub_plan })
        } else {
            Self::classify_gifts(raw, event_id)
        }
    }

    /// The tail of the classification: mystery gifts, upgrades, rituals
    /// and milestones.
    fn classify_gifts(raw: &IrcMessage, event_id: &String) -> (r: Result<
        UserNoticeEvent,
        ServerMessageParseError,
    >)
        requires
            event_id_ok(raw@),
            event_id@ == event_id_of(raw@),
            has_nonempty_tag(raw@, "user-id"@),
            has_nonempty_tag(raw@, "login"@),
            event_id_of(raw@) != "announcement"@,
            event_id_of(raw@) != "standardpayforward"@,
            event_id_of(raw@) != "communitypayforward"@,
            event_id_of(raw@) != "charitydonation"@,
            event_id_of(raw@) != "sub"@,
            event_id_of(raw@) != "resub"@,
            event_id_of(raw@) != "raid"@,
            event_id_of(raw@) != "unraid"@,
            event_id_of(raw@) != "subgift"@,
            event_id_of(raw@) != "anonsubgift"@,
            event_id_of(raw@) != "primepaidupgrade"@,
        ensures
            match r {
                Ok(e) => event_fields_ok(raw@) && user_notice_event_of(raw@, e),
                Err(e) => !event_fields_ok(raw@) && e.raw_view() == raw@,
            },
    {
        let sender_id = match raw.try_get_nonempty_tag_value("user-id") {
            Ok(v) => v.clone(),
            Err(e) => {
                return Err(e);
            },
        };
        let anon = sender_id == "274598607".to_owned();
        if (anon && *event_id == "submysterygift".to_owned()) || *event_id
            == "anonsubmysterygift".to_owned() {
            let mass_gift_count = match raw.try_get_u64("msg-param-mass-gift-count") {
                Ok(v) => v,
                Err(e) => {
                    return Err(e);
                },
            };
            let sub_plan = match raw.try_get_nonempty_tag_value("msg-param-sub-plan") {
                Ok(v) => v.clone(),
                Err(e) => {
                    return Err(e);
                },
            };
            Ok(UserNoticeEvent::AnonSubMysteryGift { mass_gift_count, sub_plan })
        } else if *event_id == "submysterygift".to_owned() {
            let sender_login = match raw.try_get_nonempty_tag_value("login") {
                Ok(v) => v.clone(),
                Err(e) => {
                    return Err(e);
                },
            };
            let mass_gift_count = match raw.try_get_u64("msg-param-mass-gift-count") {
                Ok(v) => v,
                Err(e) => {
                    return Err(e);
                },
            };
            let sender_total_gifts = if !(sender_login == "twitch".to_owned()) {
                match raw.try_get_u64("msg-param-sender-count") {
                    Ok(v) => Some(v),
                    Err(e) => {
                        return Err(e);
                    },
                }
            } else {
                match raw.try_get_u64("msg-param-sender-count") {
                    Ok(v) => Some(v),
                    Err(_) => None,
                }
            };
            let sub_plan = match raw.try_get_nonempty_tag_value("msg-param-sub-plan") {
                Ok(v) => v.clone(),
                Err(e) => {
                    return Err(e);
                },
            };
            Ok(UserNoticeEvent::SubMysteryGift { mass_gift_count, sender_total_gifts, sub_plan })
        } else if *event_id == "giftpaidupgrade".to_owned() {
            let gifter_login = match raw.try_get_nonempty_tag_value("msg-param-sender-login") {
                Ok(v) => v.clone(),
                Err(e) => {
                    return Err(e);
                },
            };
            let gifter_name = match raw.try_get_nonempty_tag_value("msg-param-sender-name") {
                Ok(v) => v.clone(),
                Err(e) => {
                    return Err(e);
                },
            };
            let promotion = match SubGiftPromo::parse_if_present(raw) {
                Ok(v) => v,
                Err(e) => {
                    return Err(e);
                },
            };
            Ok(UserNoticeEvent::GiftPaidUpgrade { gifter_login, gifter_name, promotion })
        } else if *event_id == "anongiftpaidupgrade".to_owned() {
            let promotion = match SubGiftPromo::parse_if_present(raw) {
                Ok(v) => v,
                Err(e) => {
                    return Err(e);
                },
            };
            Ok(UserNoticeEvent::AnonGiftPaidUpgrade { promotion })
        } else if *event_id == "ritual".to_owned() {
            let ritual_name = match raw.try_get_nonempty_tag_value("msg-param-ritual-name") {
                Ok(v) => v.clone(),
                Err(e) => {
                    return Err(e);
                },
            };
            Ok(UserNoticeEvent::Ritual { ritual_name })
        } else if *event_id == "bitsbadgetier".to_owned() {
            let threshold = match raw.try_get_u64("msg-param-threshold") {
                Ok(v) => v,
                Err(e) => {
                    return Err(e);
                },
            };
            Ok(UserNoticeEvent::BitsBadgeTier { threshold })
        } else if *event_id == "onetapgiftredeemed".to_owned() {
            let bits = match raw.try_get_u32("msg-param-bits-spent") {
                Ok(v) => v,
                Err(e) => {
                    return Err(e);
                },
            };
            let gift_id = match raw.try_get_nonempty_tag_value("msg-param-gift-id") {
                Ok(v) => v.clone(),
                Err(e) => {
                    return Err(e);
                },
            };
            Ok(UserNoticeEvent::OneTapGiftRedeemed { bits, gift_id })
        } else if *event_id == "viewermilestone".to_owned() {
            let category = match raw.try_get_nonempty_tag_value("msg-param-category") {
                Ok(v) => v.clone(),
                Err(e) => {
                    return Err(e);
                },
            };
            if category == "watch-streak".to_owned() {
                let streak = match raw.try_get_u32("msg-param-value") {
                    Ok(v) => v,
                    Err(e) => {
                        return Err(e);
                    },
                };
                let points = match raw.try_get_u32("msg-param-copoReward") {
                    Ok(v) => v,
                    Err(e) => {
                        return Err(e);
                    },
                };
                Ok(UserNoticeEvent::WatchStreak { streak, points })
            } else {
                Ok(UserNoticeEvent::Unknown)
            }
        } else {
            Ok(UserNoticeEvent::Unknown)
        }
    }

    /// Reads a `USERNOTICE` line.
    #[verifier::rlimit(80)]
    pub fn try_from(raw: IrcMessage) -> (r: Result<UserNoticeMessage, ServerMessageParseError>)
        ensures
            raw@.command != "USERNOTICE"@ ==> (r matches Err(e) && err_mismatched_command(e, raw@)),
            raw@.command == "USERNOTICE"@ ==> ((r is Ok) <==> user_notice_ok(raw@)),
            r matches Ok(m) ==> {
                &&& raw@.command == "USERNOTICE"@
                &&& m.raw == raw
                &&& m.channel_login@ == channel_login_of(raw@)
                &&& m.channel_id@ == tag_val(raw@, "room-id"@)
                &&& m.sender.id@ == tag_val(raw@, "user-id"@)
                &&& m.sender.login@ == tag_val(raw@, "login"@)
                &&& m.sender.name@ == tag_val(raw@, "display-name"@)
                &&& match m.message_text {
                    Some(t) => has_param(raw@, 1) && t@ == param(raw@, 1),
                    None => !has_param(raw@, 1),
                }
                &&& m.system_message@ == system_message_of(raw@)
                &&& m.event_id@ == event_id_of(raw@)
                &&& user_notice_event_of(raw@, m.event)
                &&& badge_views(m.badge_info@) == badges_of(tag_val(raw@, "badge-info"@))
                &&& badge_views(m.badges@) == badges_of(tag_val(raw@, "badges"@))
                &&& (has_param(raw@, 1) ==> (sorted_by_start(emote_views(m.emotes@)) && emote_views(
                    m.emotes@,
                ).to_multiset() == emotes_of(tag_val(raw@, "emotes"@), param(raw@, 1)).to_multiset()))
                &&& (!has_param(raw@, 1) ==> m.emotes@.len() == 0)
                &&& m.name_color@ == tag_val(raw@, "color"@)
                &&& m.message_id@ == tag_val(raw@, "id"@)
                &&& m.deleted == (has_tag(raw@, "rm-deleted"@) && bool_tag_val(raw@, "rm-deleted"@))
                &&& m.is_recent == (has_tag(raw@, "historical"@) && bool_tag_val(
                    raw@,
                    "historical"@,
                ))
                &&& match m.source_only {
                    Some(b) => unsigned_tag_ok(raw@, "source-only"@, u8::MAX as int) && b
                        == bool_tag_val(raw@, "source-only"@),
                    None => !unsigned_tag_ok(raw@, "source-only"@, u8::MAX as int),
                }
                &&& match m.source {
                    Some(src) => source_gate(raw@) && source_of(raw@, src),
                    None => !source_gate(raw@),
                }
                &&& m.server_timestamp == unsigned_tag_val(raw@, "tmi-sent-ts"@)
            },
            r matches Err(e) ==> e.raw_view() == raw@,
    {
        if !(raw.command == "USERNOTICE".to_owned()) {
            return Err(ServerMessageParseError::MismatchedCommand(raw));
        }
        let sender_id = match raw.try_get_nonempty_tag_value("user-id") {
            Ok(v) => v.clone(),
            Err(e) => {
                return Err(e);
            },
        };
        let sender_login = match raw.try_get_nonempty_tag_value("login") {
            Ok(v) => v.clone(),
            Err(e) => {
                return Err(e);
            },
        };
        let sender_name = match raw.try_get_nonempty_tag_value("display-name") {
            Ok(v) => v.clone(),
            Err(e) => {
                return Err(e);
            },
        };
        let msg_id = match raw.try_get_nonempty_tag_value("msg-id") {
            Ok(v) => v.clone(),
            Err(e) => {
                return Err(e);
            },
        };
        let event_id = if msg_id == "sharedchatnotice".to_owned() {
            match raw.try_get_nonempty_tag_value("source-msg-id") {
                Ok(v) => v.clone(),
                Err(e) => {
                    return Err(e);
                },
            }
        } else {
            msg_id
        };
        let event = match Self::classify(&raw, &event_id) {
            Ok(v) => v,
            Err(e) => {
                return Err(e);
            },
        };
        let message_text = if raw.params.len() > 1 {
            Some(raw.params[1].clone())
        } else {
            None
        };
        let emotes = match &message_text {
            Some(t) => match raw.try_get_emotes("emotes", t.as_str()) {
                Ok(v) => v,
                Err(e) => {
                    return Err(e);
                },
            },
            None => Vec::new(),
        };
        let system_message = match raw.try_get_nonempty_tag_value("system-msg") {
            Ok(v) => v.clone(),
            Err(e) => {
                if event_id == "announcement".to_owned() {
                    match raw.try_get_param(1) {
                        Ok(v) => v.clone(),
                        Err(e2) => {
                            return Err(e2);
                        },
                    }
                } else {
                    return Err(e);
                }
            },
        };
        let channel_login = match raw.try_get_channel_login() {
            Ok(v) => v,
            Err(e) => {
                return Err(e);
            },
        };
        let channel_id = match raw.try_get_nonempty_tag_value("room-id") {
            Ok(v) => v.clone(),
            Err(e) => {
                return Err(e);
            },
        };
        let badge_info = match raw.try_get_badges("badge-info") {
            Ok(v) => v,
            Err(e) => {
                return Err(e);
            },
        };
        let badges = match raw.try_get_badges("badges") {
            Ok(v) => v,
            Err(e) => {
                return Err(e);
            },
        };
        let name_color = match raw.try_get_color("color") {
            Ok(v) => v.clone(),
            Err(e) => {
                return Err(e);
            },
        };
        let message_id = match raw.try_get_nonempty_tag_value("id") {
            Ok(v) => v.clone(),
            Err(e) => {
                return Err(e);
            },
        };
        let deleted = match raw.try_get_optional_bool("rm-deleted") {
            Ok(v) => v.unwrap_or(false),
            Err(e) => {
                return Err(e);
            },
        };
        let is_recent = match raw.try_get_optional_bool("historical") {
            Ok(v) => v.unwrap_or(false),
            Err(e) => {
                return Err(e);
            },
        };
        let source_only = match raw.try_get_bool("source-only") {
            Ok(v) => Some(v),
            Err(_) => None,
        };
        let source = match raw.try_get_source() {
            Ok(v) => v,
            Err(e) => {
                return Err(e);
            },
        };
        let server_timestamp = match raw.try_get_timestamp("tmi-sent-ts") {
            Ok(v) => v,
            Err(e) => {
                return Err(e);
            },
        };
        Ok(
            UserNoticeMessage {
                channel_login,
                channel_id,
                sender: BasicUser { id: sender_id, login: sender_login, name: sender_name },
                message_text,
                system_message,
                event,
                event_id,
                badge_info,
                badges,
                emotes,
                name_color,
                message_id,
                deleted,
                is_recent,
                source_only,
                source,
                server_timestamp,
                raw,
            },
        )
    }
}

} // verus!
