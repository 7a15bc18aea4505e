//! Field extraction primitives over a raw line, each with precise failure
//! semantics, shared by every typed event constructor.

use vstd::multiset::Multiset;
use vstd::prelude::*;

use crate::line::{IrcMessage, IrcPrefix, LineView, PrefixView};
use crate::num;
use crate::split::{
    find_char, find_char_from, lemma_find_char_is, lemma_find_char_none, lemma_split_on_len,
    lemma_split_on_step, split_on,
};
use crate::twitch::{Badge, BadgeView, BasicUser, Emote, EmoteView, Reply, ReplyParent, ReplyThread, Source};

verus! {

/// Why a raw line could not be read as a typed event. Every variant
/// carries the offending line for diagnostics.
#[derive(Debug, PartialEq, Eq)]
pub enum ServerMessageParseError {
    /// The dispatcher invoked a constructor for another command.
    MismatchedCommand(IrcMessage),
    /// A required tag is absent.
    MissingTag(IrcMessage, String),
    /// A required tag is present but empty.
    MissingTagValue(IrcMessage, String),
    /// A tag value does not have the shape the field asks for; carries the
    /// key and the offending value.
    MalformedTagValue(IrcMessage, String, String),
    /// The parameter list is shorter than the index asked for.
    MissingParameter(IrcMessage, usize),
    /// Parameter 0 does not name a channel (`#` plus at least one char).
    MalformedChannel(IrcMessage),
    /// The line has no prefix at all.
    MissingPrefix(IrcMessage),
    /// The line's prefix is host-only and carries no nickname.
    MissingNickname(IrcMessage),
}

impl ServerMessageParseError {
    /// The raw line the error carries.
    pub open spec fn raw_view(&self) -> LineView {
        match self {
            ServerMessageParseError::MismatchedCommand(m) => m@,
            ServerMessageParseError::MissingTag(m, _) => m@,
            ServerMessageParseError::MissingTagValue(m, _) => m@,
            ServerMessageParseError::MalformedTagValue(m, _, _) => m@,
            ServerMessageParseError::MissingParameter(m, _) => m@,
            ServerMessageParseError::MalformedChannel(m) => m@,
            ServerMessageParseError::MissingPrefix(m) => m@,
            ServerMessageParseError::MissingNickname(m) => m@,
        }
    }

    /// Takes the carried raw line back out.
    pub fn into_raw(self) -> (r: IrcMessage)
        ensures
            r@ == self.raw_view(),
    {
        match self {
            ServerMessageParseError::MismatchedCommand(m) => m,
            ServerMessageParseError::MissingTag(m, _) => m,
            ServerMessageParseError::MissingTagValue(m, _) => m,
            ServerMessageParseError::MalformedTagValue(m, _, _) => m,
            ServerMessageParseError::MissingParameter(m, _) => m,
            ServerMessageParseError::MalformedChannel(m) => m,
            ServerMessageParseError::MissingPrefix(m) => m,
            ServerMessageParseError::MissingNickname(m) => m,
        }
    }
}

/// The error is `MissingTag` for key `k` on line `m`.
pub open spec fn err_missing_tag(e: ServerMessageParseError, m: LineView, k: Seq<char>) -> bool {
    e matches ServerMessageParseError::MissingTag(em, ek) && em@ == m && ek@ == k
}

/// The error is `MissingTagValue` for key `k` on line `m`.
pub open spec fn err_missing_tag_value(
    e: ServerMessageParseError,
    m: LineView,
    k: Seq<char>,
) -> bool {
    e matches ServerMessageParseError::MissingTagValue(em, ek) && em@ == m && ek@ == k
}

/// The error is `MalformedTagValue` for key `k` and value `v` on line `m`.
pub open spec fn err_malformed_tag_value(
    e: ServerMessageParseError,
    m: LineView,
    k: Seq<char>,
    v: Seq<char>,
) -> bool {
    e matches ServerMessageParseError::MalformedTagValue(em, ek, ev) && em@ == m && ek@ == k && ev@
        == v
}

/// The error is `MissingParameter` for index `i` on line `m`.
pub open spec fn err_missing_parameter(e: ServerMessageParseError, m: LineView, i: int) -> bool {
    e matches ServerMessageParseError::MissingParameter(em, ei) && em@ == m && ei == i
}

/// The error is `MalformedChannel` on line `m`.
pub open spec fn err_malformed_channel(e: ServerMessageParseError, m: LineView) -> bool {
    e matches ServerMessageParseError::MalformedChannel(em) && em@ == m
}

/// The error is `MissingPrefix` on line `m`.
pub open spec fn err_missing_prefix(e: ServerMessageParseError, m: LineView) -> bool {
    e matches ServerMessageParseError::MissingPrefix(em) && em@ == m
}

/// The error is `MissingNickname` on line `m`.
pub open spec fn err_missing_nickname(e: ServerMessageParseError, m: LineView) -> bool {
    e matches ServerMessageParseError::MissingNickname(em) && em@ == m
}

/// The error is `MismatchedCommand` on line `m`.
pub open spec fn err_mismatched_command(e: ServerMessageParseError, m: LineView) -> bool {
    e matches ServerMessageParseError::MismatchedCommand(em) && em@ == m
}

/// The line carries tag `k`.
pub open spec fn has_tag(m: LineView, k: Seq<char>) -> bool {
    m.tags.contains_key(k)
}

/// The value of tag `k`.
pub open spec fn tag_val(m: LineView, k: Seq<char>) -> Seq<char> {
    m.tags[k]
}

/// The line carries tag `k` with a non-empty value.
pub open spec fn has_nonempty_tag(m: LineView, k: Seq<char>) -> bool {
    has_tag(m, k) && tag_val(m, k).len() > 0
}

/// The line has a parameter at index `i`.
pub open spec fn has_param(m: LineView, i: int) -> bool {
    0 <= i < m.params.len()
}

/// The parameter at index `i`.
pub open spec fn param(m: LineView, i: int) -> Seq<char> {
    m.params[i]
}

/// Parameter 0 names a channel: `#` plus at least one character.
pub open spec fn channel_ok(m: LineView) -> bool {
    has_param(m, 0) && param(m, 0).len() >= 2 && param(m, 0)[0] == '#'
}

/// The channel login: parameter 0 with the leading `#` removed.
pub open spec fn channel_login_of(m: LineView) -> Seq<char> {
    param(m, 0).skip(1)
}

/// The text is wrapped in the CTCP ACTION envelope: a `\u{1}ACTION `
/// prefix and a `\u{1}` suffix.
pub open spec fn action_wrapped(t: Seq<char>) -> bool {
    &&& t.len() >= 9
    &&& t[0] == '\u{1}'
    &&& t[1] == 'A'
    &&& t[2] == 'C'
    &&& t[3] == 'T'
    &&& t[4] == 'I'
    &&& t[5] == 'O'
    &&& t[6] == 'N'
    &&& t[7] == ' '
    &&& t[t.len() - 1] == '\u{1}'
}

/// The message body of parameter 1: the envelope is stripped when the
/// text is action-wrapped.
pub open spec fn message_text_of(t: Seq<char>) -> Seq<char> {
    if action_wrapped(t) {
        t.subrange(8, t.len() - 1)
    } else {
        t
    }
}

/// Tag `k` is absent, or present, non-empty and an unsigned decimal that
/// fits below `max`.
pub open spec fn opt_unsigned_tag_ok(m: LineView, k: Seq<char>, max: int) -> bool {
    has_tag(m, k) ==> (tag_val(m, k).len() > 0 && num::unsigned_ok(tag_val(m, k), max))
}

/// Tag `k` is present, non-empty and an unsigned decimal below `max`.
pub open spec fn unsigned_tag_ok(m: LineView, k: Seq<char>, max: int) -> bool {
    has_nonempty_tag(m, k) && num::unsigned_ok(tag_val(m, k), max)
}

/// The numeric value of tag `k`.
pub open spec fn unsigned_tag_val(m: LineView, k: Seq<char>) -> int {
    num::unsigned_val(tag_val(m, k))
}

/// The boolean a numeric tag denotes: true exactly when positive.
pub open spec fn bool_tag_val(m: LineView, k: Seq<char>) -> bool {
    unsigned_tag_val(m, k) > 0
}

/// A badge segment holds a `/` between name and version.
pub open spec fn badge_seg_ok(seg: Seq<char>) -> bool {
    find_char(seg, '/') >= 0
}

/// The badge a segment denotes: the name before the first `/`, the
/// version after it.
pub open spec fn badge_of(seg: Seq<char>) -> BadgeView {
    let j = find_char(seg, '/');
    BadgeView { name: seg.take(j), version: seg.skip(j + 1) }
}

/// A badges tag is empty or each comma-separated segment holds a `/`.
pub open spec fn badges_tag_ok(v: Seq<char>) -> bool {
    v.len() == 0 || forall|i: int|
        0 <= i < split_on(v, ',').len() ==> badge_seg_ok(#[trigger] split_on(v, ',')[i])
}

/// The badges a list of segments denotes, in order.
pub open spec fn badges_of_segs(segs: Seq<Seq<char>>) -> Seq<BadgeView>
    decreases segs.len(),
{
    if segs.len() == 0 {
        Seq::empty()
    } else {
        badges_of_segs(segs.drop_last()).push(badge_of(segs.last()))
    }
}

/// The badges a tag value denotes, in the order written.
pub open spec fn badges_of(v: Seq<char>) -> Seq<BadgeView> {
    if v.len() == 0 {
        Seq::empty()
    } else {
        badges_of_segs(split_on(v, ','))
    }
}

/// The views of a list of badges, in order.
pub open spec fn badge_views(s: Seq<Badge>) -> Seq<BadgeView>
    decreases s.len(),
{
    if s.len() == 0 {
        Seq::empty()
    } else {
        badge_views(s.drop_last()).push(s.last()@)
    }
}

/// The emote-set ids a tag value denotes: comma-separated, an empty tag
/// denoting none. The ids are kept exactly as written, in order; a
/// repeated id stays repeated rather than being collapsed to a set.
pub open spec fn emote_sets_of(v: Seq<char>) -> Seq<Seq<char>> {
    if v.len() == 0 {
        Seq::empty()
    } else {
        split_on(v, ',')
    }
}

/// The tag that gates reply metadata is present.
pub open spec fn reply_gate(m: LineView) -> bool {
    has_tag(m, "reply-parent-msg-id"@)
}

/// Once gated, every tag the reply structure pulls is readable.
pub open spec fn reply_ok(m: LineView) -> bool {
    &&& has_nonempty_tag(m, "reply-parent-user-id"@)
    &&& has_nonempty_tag(m, "reply-parent-user-login"@)
    &&& has_nonempty_tag(m, "reply-parent-display-name"@)
    &&& has_tag(m, "reply-parent-msg-body"@)
    &&& has_tag(m, "reply-thread-parent-msg-id"@)
    &&& has_nonempty_tag(m, "reply-thread-parent-user-id"@)
    &&& has_nonempty_tag(m, "reply-thread-parent-user-login"@)
    &&& has_nonempty_tag(m, "reply-thread-parent-display-name"@)
}

/// The tag that gates shared-chat source metadata is present.
pub open spec fn source_gate(m: LineView) -> bool {
    has_tag(m, "source-id"@)
}

/// Once gated, the required source tags are readable; the badge lists are
/// deliberately lenient and are not part of this condition.
pub open spec fn source_ok(m: LineView) -> bool {
    has_nonempty_tag(m, "source-id"@) && has_nonempty_tag(m, "source-room-id"@)
}

/// The badges of tag `k` read leniently: any failure gives an empty list.
pub open spec fn lenient_badges(m: LineView, k: Seq<char>) -> Seq<BadgeView> {
    if has_tag(m, k) && badges_tag_ok(tag_val(m, k)) {
        badges_of(tag_val(m, k))
    } else {
        Seq::empty()
    }
}

/// `rep` is exactly the reply metadata line `m` denotes.
pub open spec fn reply_of(m: LineView, rep: Reply) -> bool {
    &&& rep.parent.message_id@ == tag_val(m, "reply-parent-msg-id"@)
    &&& rep.parent.user.id@ == tag_val(m, "reply-parent-user-id"@)
    &&& rep.parent.user.login@ == tag_val(m, "reply-parent-user-login"@)
    &&& rep.parent.user.name@ == tag_val(m, "reply-parent-display-name"@)
    &&& rep.parent.message_text@ == tag_val(m, "reply-parent-msg-body"@)
    &&& rep.thread.message_id@ == tag_val(m, "reply-thread-parent-msg-id"@)
    &&& rep.thread.user.id@ == tag_val(m, "reply-thread-parent-user-id"@)
    &&& rep.thread.user.login@ == tag_val(m, "reply-thread-parent-user-login"@)
    &&& rep.thread.user.name@ == tag_val(m, "reply-thread-parent-display-name"@)
}

/// `src` is exactly the shared-chat source metadata line `m` denotes.
pub open spec fn source_of(m: LineView, src: Source) -> bool {
    &&& src.message_id@ == tag_val(m, "source-id"@)
    &&& match src.event_id {
        Some(ev) => has_tag(m, "source-msg-id"@) && ev@ == tag_val(m, "source-msg-id"@),
        None => !has_tag(m, "source-msg-id"@),
    }
    &&& src.channel_id@ == tag_val(m, "source-room-id"@)
    &&& badge_views(src.badges@) == lenient_badges(m, "source-badges"@)
    &&& badge_views(src.badge_info@) == lenient_badges(m, "source-badge-info"@)
}

/// `i` clipped to at most `n`.
pub open spec fn clip(i: int, n: int) -> int {
    if i <= n {
        i
    } else {
        n
    }
}

/// A range piece `start-end` of an emotes tag is well-formed: a `-`
/// between two unsigned decimals, the exclusive bound `end + 1` fits the
/// machine, and the range is not inverted.
pub open spec fn range_ok(rs: Seq<char>) -> bool {
    let j = find_char(rs, '-');
    &&& j >= 0
    &&& num::unsigned_ok(rs.take(j), usize::MAX as int)
    &&& num::unsigned_ok(rs.skip(j + 1), usize::MAX as int)
    &&& num::unsigned_val(rs.skip(j + 1)) < usize::MAX as int
    &&& num::unsigned_val(rs.take(j)) <= num::unsigned_val(rs.skip(j + 1)) + 1
}

/// The emote a range piece denotes over message text `text`: the wire
/// format's inclusive end becomes an exclusive bound, and the covered
/// text is read off by character position, clipped to the text.
pub open spec fn emote_of(id: Seq<char>, rs: Seq<char>, text: Seq<char>) -> EmoteView {
    let j = find_char(rs, '-');
    let start = num::unsigned_val(rs.take(j));
    let end = num::unsigned_val(rs.skip(j + 1)) + 1;
    EmoteView {
        id: id,
        start: start,
        end: end,
        code: text.subrange(clip(start, text.len() as int), clip(end, text.len() as int)),
    }
}

/// The emotes a list of range pieces denotes, in order.
pub open spec fn emotes_of_ranges(id: Seq<char>, rss: Seq<Seq<char>>, text: Seq<char>) -> Seq<
    EmoteView,
>
    decreases rss.len(),
{
    if rss.len() == 0 {
        Seq::empty()
    } else {
        emotes_of_ranges(id, rss.drop_last(), text).push(emote_of(id, rss.last(), text))
    }
}

/// An emotes-tag segment is well-formed: an id, `:`, and comma-separated
/// well-formed range pieces.
pub open spec fn emote_seg_ok(seg: Seq<char>) -> bool {
    let j = find_char(seg, ':');
    &&& j >= 0
    &&& forall|i: int|
        0 <= i < split_on(seg.skip(j + 1), ',').len() ==> range_ok(
            #[trigger] split_on(seg.skip(j + 1), ',')[i],
        )
}

/// The emotes one segment denotes: its id applied to each range piece.
pub open spec fn emotes_of_seg(seg: Seq<char>, text: Seq<char>) -> Seq<EmoteView> {
    let j = find_char(seg, ':');
    emotes_of_ranges(seg.take(j), split_on(seg.skip(j + 1), ','), text)
}

/// The emotes a list of segments denotes, in the order written.
pub open spec fn emotes_of_segs(segs: Seq<Seq<char>>, text: Seq<char>) -> Seq<EmoteView>
    decreases segs.len(),
{
    if segs.len() == 0 {
        Seq::empty()
    } else {
        emotes_of_segs(segs.drop_last(), text) + emotes_of_seg(segs.last(), text)
    }
}

/// An emotes tag is empty or each `/`-separated segment is well-formed.
pub open spec fn emotes_tag_ok(v: Seq<char>) -> bool {
    v.len() == 0 || forall|i: int|
        0 <= i < split_on(v, '/').len() ==> emote_seg_ok(#[trigger] split_on(v, '/')[i])
}

/// The emotes a tag value denotes over message text `text`, in the order
/// written.
pub open spec fn emotes_of(v: Seq<char>, text: Seq<char>) -> Seq<EmoteView> {
    if v.len() == 0 {
        Seq::empty()
    } else {
        emotes_of_segs(split_on(v, '/'), text)
    }
}

/// The views of a list of emotes, in order.
pub open spec fn emote_views(s: Seq<Emote>) -> Seq<EmoteView> {
    Seq::new(s.len(), |i: int| s[i]@)
}

/// The emotes are in ascending order of start offset.
pub open spec fn sorted_by_start(s: Seq<EmoteView>) -> bool {
    forall|i: int, j: int| 0 <= i < j < s.len() ==> s[i].start <= s[j].start
}

/// Inserting an element anywhere in a sequence inserts it into the
/// sequence's multiset.
proof fn lemma_insert_to_multiset(s: Seq<EmoteView>, i: int, x: EmoteView)
    requires
        0 <= i <= s.len(),
    ensures
        s.insert(i, x).to_multiset() =~= s.to_multiset().insert(x),
{
    broadcast use vstd::seq_lib::group_to_multiset_ensures;

    let a = s.take(i);
    let b = s.skip(i);
    assert(s =~= a + b);
    assert(s.insert(i, x) =~= a + (seq![x] + b));
    vstd::seq_lib::lemma_multiset_commutative(a, b);
    vstd::seq_lib::lemma_multiset_commutative(a, seq![x] + b);
    vstd::seq_lib::lemma_multiset_commutative(seq![x], b);
    assert(seq![x] =~= Seq::<EmoteView>::empty().push(x));
    assert(Seq::<EmoteView>::empty().to_multiset() =~= Multiset::<EmoteView>::empty());
    assert(seq![x].to_multiset() =~= Multiset::<EmoteView>::empty().insert(x));
}

/// Sorts emotes in ascending order of start offset, keeping the same
/// collection of emotes.
fn sort_emotes_by_start(v: Vec<Emote>) -> (r: Vec<Emote>)
    ensures
        sorted_by_start(emote_views(r@)),
        emote_views(r@).to_multiset() == emote_views(v@).to_multiset(),
{
    broadcast use vstd::seq_lib::group_to_multiset_ensures;

    let mut rest = v;
    let mut out: Vec<Emote> = Vec::new();
    proof {
        assert(emote_views(out@) =~= Seq::<EmoteView>::empty());
        assert(emote_views(out@).to_multiset() =~= Multiset::<EmoteView>::empty());
        assert(emote_views(v@).to_multiset() =~= emote_views(out@).to_multiset().add(
            emote_views(rest@).to_multiset(),
        ));
    }
    while rest.len() > 0
        invariant
            sorted_by_start(emote_views(out@)),
            emote_views(v@).to_multiset() == emote_views(out@).to_multiset().add(
                emote_views(rest@).to_multiset(),
            ),
        decreases rest.len(),
    {
        let ghost rest_views = emote_views(rest@);
        let e = rest.remove(0);
        proof {
            assert(emote_views(rest@) =~~= rest_views.remove(0));
            assert(rest_views.remove(0).to_multiset() =~= rest_views.to_multiset().remove(
                rest_views[0],
            ));
            assert(rest_views[0] == e@);
            assert(rest_views.to_multiset().contains(e@));
        }
        let mut p: usize = 0;
        while p < out.len() && out[p].char_range.start <= e.char_range.start
            invariant
                p <= out.len(),
                forall|i: int| 0 <= i < p ==> emote_views(out@)[i].start <= e@.start,
            decreases out.len() - p,
        {
            p = p + 1;
        }
        let ghost out_views = emote_views(out@);
        proof {
            assert(forall|i: int|
                p <= i < out_views.len() ==> out_views[p as int].start <= #[trigger] out_views[i].start);
        }
        out.insert(p, e);
        proof {
            assert(emote_views(out@) =~~= out_views.insert(p as int, e@));
            lemma_insert_to_multiset(out_views, p as int, e@);
            assert(sorted_by_start(emote_views(out@)));
            assert(emote_views(v@).to_multiset() =~= emote_views(out@).to_multiset().add(
                emote_views(rest@).to_multiset(),
            ));
        }
    }
    proof {
        assert(emote_views(rest@).to_multiset() =~= Multiset::<EmoteView>::empty());
        assert(emote_views(v@).to_multiset() =~= emote_views(out@).to_multiset());
    }
    out
}

impl IrcMessage {
    /// The parameter at `index`; `MissingParameter` when the list is too
    /// short.
    pub fn try_get_param(&self, index: usize) -> (r: Result<&String, ServerMessageParseError>)
        ensures
            match r {
                Ok(v) => has_param(self@, index as int) && v@ == param(self@, index as int),
                Err(e) => !has_param(self@, index as int) && err_missing_parameter(
                    e,
                    self@,
                    index as int,
                ),
            },
    {
        if index < self.params.len() {
            Ok(&self.params[index])
        } else {
            Err(ServerMessageParseError::MissingParameter(self.clone(), index))
        }
    }

    /// Parameter 1 as the message body, with the CTCP ACTION envelope
    /// stripped; the flag says whether the envelope was present.
    pub fn try_get_message_text(&self) -> (r: Result<
        (String, bool),
        ServerMessageParseError,
    >)
        ensures
            match r {
                Ok((t, is_action)) => {
                    &&& has_param(self@, 1)
                    &&& t@ == message_text_of(param(self@, 1))
                    &&& is_action == action_wrapped(param(self@, 1))
                },
                Err(e) => !has_param(self@, 1) && err_missing_parameter(e, self@, 1),
            },
    {
        let text = match self.try_get_param(1) {
            Ok(t) => t,
            Err(e) => {
                return Err(e);
            },
        };
        let s = text.as_str();
        let n = s.unicode_len();
        let is_action = n >= 9 && s.get_char(0) == '\u{1}' && s.get_char(1) == 'A' && s.get_char(2)
            == 'C' && s.get_char(3) == 'T' && s.get_char(4) == 'I' && s.get_char(5) == 'O'
            && s.get_char(6) == 'N' && s.get_char(7) == ' ' && s.get_char(n - 1) == '\u{1}';
        if is_action {
            Ok((s.substring_char(8, n - 1).to_owned(), true))
        } else {
            Ok((text.clone(), false))
        }
    }

    /// The value of tag `key`; `MissingTag` when absent.
    pub fn try_get_tag_value(&self, key: &str) -> (r: Result<&String, ServerMessageParseError>)
        ensures
            match r {
                Ok(v) => has_tag(self@, key@) && v@ == tag_val(self@, key@),
                Err(e) => !has_tag(self@, key@) && err_missing_tag(e, self@, key@),
            },
    {
        match self.tags.get(key) {
            Some(value) => Ok(value),
            None => Err(ServerMessageParseError::MissingTag(self.clone(), key.to_owned())),
        }
    }

    /// The value of tag `key`; `MissingTag` when absent, `MissingTagValue`
    /// when empty.
    pub fn try_get_nonempty_tag_value(&self, key: &str) -> (r: Result<
        &String,
        ServerMessageParseError,
    >)
        ensures
            match r {
                Ok(v) => has_nonempty_tag(self@, key@) && v@ == tag_val(self@, key@),
                Err(e) => {
                    &&& !has_nonempty_tag(self@, key@)
                    &&& if has_tag(self@, key@) {
                        err_missing_tag_value(e, self@, key@)
                    } else {
                        err_missing_tag(e, self@, key@)
                    }
                },
            },
    {
        match self.tags.get(key) {
            Some(value) => {
                if value.as_str().is_empty() {
                    Err(ServerMessageParseError::MissingTagValue(self.clone(), key.to_owned()))
                } else {
                    Ok(value)
                }
            },
            None => Err(ServerMessageParseError::MissingTag(self.clone(), key.to_owned())),
        }
    }

    /// The value of tag `key` when present; absence is no error, an empty
    /// value is `MissingTagValue`.
    pub fn try_get_optional_nonempty_tag_value(&self, key: &str) -> (r: Result<
        Option<&String>,
        ServerMessageParseError,
    >)
        ensures
            match r {
                Ok(v) => match v {
                    Some(v) => has_nonempty_tag(self@, key@) && v@ == tag_val(self@, key@),
                    None => !has_tag(self@, key@),
                },
                Err(e) => has_tag(self@, key@) && tag_val(self@, key@).len() == 0
                    && err_missing_tag_value(e, self@, key@),
            },
    {
        match self.tags.get(key) {
            Some(value) => {
                if value.as_str().is_empty() {
                    Err(ServerMessageParseError::MissingTagValue(self.clone(), key.to_owned()))
                } else {
                    Ok(Some(value))
                }
            },
            None => Ok(None),
        }
    }

    /// The channel login: parameter 0 without its leading `#`;
    /// `MalformedChannel` when the parameter is no channel name.
    pub fn try_get_channel_login(&self) -> (r: Result<String, ServerMessageParseError>)
        ensures
            match r {
                Ok(v) => channel_ok(self@) && v@ == channel_login_of(self@),
                Err(e) => {
                    &&& !channel_ok(self@)
                    &&& if has_param(self@, 0) {
                        err_malformed_channel(e, self@)
                    } else {
                        err_missing_parameter(e, self@, 0)
                    }
                },
            },
    {
        let p = match self.try_get_param(0) {
            Ok(p) => p,
            Err(e) => {
                return Err(e);
            },
        };
        let s = p.as_str();
        let n = s.unicode_len();
        if n >= 2 && s.get_char(0) == '#' {
            Ok(s.substring_char(1, n).to_owned())
        } else {
            Err(ServerMessageParseError::MalformedChannel(self.clone()))
        }
    }

    /// As `try_get_channel_login`, but a literal `*` parameter means "no
    /// channel" rather than an error.
    pub fn try_get_optional_channel_login(&self) -> (r: Result<
        Option<String>,
        ServerMessageParseError,
    >)
        ensures
            match r {
                Ok(v) => match v {
                    Some(v) => channel_ok(self@) && v@ == channel_login_of(self@),
                    None => has_param(self@, 0) && param(self@, 0) =~= seq!['*'],
                },
                Err(e) => {
                    &&& !channel_ok(self@)
                    &&& !(has_param(self@, 0) && param(self@, 0) =~= seq!['*'])
                    &&& if has_param(self@, 0) {
                        err_malformed_channel(e, self@)
                    } else {
                        err_missing_parameter(e, self@, 0)
                    }
                },
            },
    {
        let p = match self.try_get_param(0) {
            Ok(p) => p,
            Err(e) => {
                return Err(e);
            },
        };
        let s = p.as_str();
        let n = s.unicode_len();
        if n == 1 && s.get_char(0) == '*' {
            return Ok(None);
        }
        if n >= 2 && s.get_char(0) == '#' {
            Ok(Some(s.substring_char(1, n).to_owned()))
        } else {
            Err(ServerMessageParseError::MalformedChannel(self.clone()))
        }
    }

    /// The nickname of a full prefix; `MissingPrefix` without a prefix,
    /// `MissingNickname` for a host-only one.
    pub fn try_get_prefix_nickname(&self) -> (r: Result<&String, ServerMessageParseError>)
        ensures
            match r {
                Ok(v) => self@.prefix matches Some(PrefixView::Full { nick, .. }) && v@ == nick,
                Err(e) => match self@.prefix {
                    None => err_missing_prefix(e, self@),
                    Some(p) => p is HostOnly && err_missing_nickname(e, self@),
                },
            },
    {
        match &self.prefix {
            None => Err(ServerMessageParseError::MissingPrefix(self.clone())),
            Some(IrcPrefix::HostOnly { host: _ }) => Err(
                ServerMessageParseError::MissingNickname(self.clone()),
            ),
            Some(IrcPrefix::Full { nick, user: _, host: _ }) => Ok(nick),
        }
    }

    /// The numeric value of tag `key` as a `u64`; a present but unreadable
    /// value is `MalformedTagValue` carrying key and value.
    pub fn try_get_u64(&self, key: &str) -> (r: Result<u64, ServerMessageParseError>)
        ensures
            match r {
                Ok(v) => unsigned_tag_ok(self@, key@, u64::MAX as int) && v == unsigned_tag_val(
                    self@,
                    key@,
                ),
                Err(e) => {
                    &&& !unsigned_tag_ok(self@, key@, u64::MAX as int)
                    &&& if !has_tag(self@, key@) {
                        err_missing_tag(e, self@, key@)
                    } else if tag_val(self@, key@).len() == 0 {
                        err_missing_tag_value(e, self@, key@)
                    } else {
                        err_malformed_tag_value(e, self@, key@, tag_val(self@, key@))
                    }
                },
            },
    {
        let value = match self.try_get_nonempty_tag_value(key) {
            Ok(v) => v,
            Err(e) => {
                return Err(e);
            },
        };
        match num::parse_u64(value.as_str()) {
            Some(v) => Ok(v),
            None => Err(
                ServerMessageParseError::MalformedTagValue(
                    self.clone(),
                    key.to_owned(),
                    value.clone(),
                ),
            ),
        }
    }

    /// The numeric value of tag `key` as a `u32`.
    pub fn try_get_u32(&self, key: &str) -> (r: Result<u32, ServerMessageParseError>)
        ensures
            match r {
                Ok(v) => unsigned_tag_ok(self@, key@, u32::MAX as int) && v == unsigned_tag_val(
                    self@,
                    key@,
                ),
                Err(e) => {
                    &&& !unsigned_tag_ok(self@, key@, u32::MAX as int)
                    &&& if !has_tag(self@, key@) {
                        err_missing_tag(e, self@, key@)
                    } else if tag_val(self@, key@).len() == 0 {
                        err_missing_tag_value(e, self@, key@)
                    } else {
                        err_malformed_tag_value(e, self@, key@, tag_val(self@, key@))
                    }
                },
            },
    {
        let value = match self.try_get_nonempty_tag_value(key) {
            Ok(v) => v,
            Err(e) => {
                return Err(e);
            },
        };
        match num::parse_u32(value.as_str()) {
            Some(v) => Ok(v),
            None => Err(
                ServerMessageParseError::MalformedTagValue(
                    self.clone(),
                    key.to_owned(),
                    value.clone(),
                ),
            ),
        }
    }

    /// The boolean value of tag `key`: read as an unsigned number, true
    /// exactly when positive.
    pub fn try_get_bool(&self, key: &str) -> (r: Result<bool, ServerMessageParseError>)
        ensures
            match r {
                Ok(v) => unsigned_tag_ok(self@, key@, u8::MAX as int) && v == bool_tag_val(
                    self@,
                    key@,
                ),
                Err(e) => {
                    &&& !unsigned_tag_ok(self@, key@, u8::MAX as int)
                    &&& if !has_tag(self@, key@) {
                        err_missing_tag(e, self@, key@)
                    } else if tag_val(self@, key@).len() == 0 {
                        err_missing_tag_value(e, self@, key@)
                    } else {
                        err_malformed_tag_value(e, self@, key@, tag_val(self@, key@))
                    }
                },
            },
    {
        let value = match self.try_get_nonempty_tag_value(key) {
            Ok(v) => v,
            Err(e) => {
                return Err(e);
            },
        };
        match num::parse_u8(value.as_str()) {
            Some(v) => Ok(v > 0),
            None => Err(
                ServerMessageParseError::MalformedTagValue(
                    self.clone(),
                    key.to_owned(),
                    value.clone(),
                ),
            ),
        }
    }

    /// The numeric value of tag `key` as a `u64` when present; absence is
    /// no error.
    pub fn try_get_optional_u64(&self, key: &str) -> (r: Result<
        Option<u64>,
        ServerMessageParseError,
    >)
        ensures
            match r {
                Ok(v) => match v {
                    Some(v) => unsigned_tag_ok(self@, key@, u64::MAX as int) && v
                        == unsigned_tag_val(self@, key@),
                    None => !has_tag(self@, key@),
                },
                Err(e) => {
                    &&& has_tag(self@, key@)
                    &&& !unsigned_tag_ok(self@, key@, u64::MAX as int)
                    &&& if tag_val(self@, key@).len() == 0 {
                        err_missing_tag_value(e, self@, key@)
                    } else {
                        err_malformed_tag_value(e, self@, key@, tag_val(self@, key@))
                    }
                },
            },
    {
        let value = match self.try_get_optional_nonempty_tag_value(key) {
            Ok(Some(v)) => v,
            Ok(None) => {
                return Ok(None);
            },
            Err(e) => {
                return Err(e);
            },
        };
        match num::parse_u64(value.as_str()) {
            Some(v) => Ok(Some(v)),
            None => Err(
                ServerMessageParseError::MalformedTagValue(
                    self.clone(),
                    key.to_owned(),
                    value.clone(),
                ),
            ),
        }
    }

    /// The numeric value of tag `key` as an `i64` when present; absence
    /// is no error.
    pub fn try_get_optional_i64(&self, key: &str) -> (r: Result<
        Option<i64>,
        ServerMessageParseError,
    >)
        ensures
            match r {
                Ok(v) => match v {
                    Some(v) => {
                        &&& has_nonempty_tag(self@, key@)
                        &&& num::signed_ok(tag_val(self@, key@), i64::MIN as int, i64::MAX as int)
                        &&& v == num::signed_val(tag_val(self@, key@))
                    },
                    None => !has_tag(self@, key@),
                },
                Err(e) => {
                    &&& has_tag(self@, key@)
                    &&& !(tag_val(self@, key@).len() > 0 && num::signed_ok(
                        tag_val(self@, key@),
                        i64::MIN as int,
                        i64::MAX as int,
                    ))
                    &&& if tag_val(self@, key@).len() == 0 {
                        err_missing_tag_value(e, self@, key@)
                    } else {
                        err_malformed_tag_value(e, self@, key@, tag_val(self@, key@))
                    }
                },
            },
    {
        let value = match self.try_get_optional_nonempty_tag_value(key) {
            Ok(Some(v)) => v,
            Ok(None) => {
                return Ok(None);
            },
            Err(e) => {
                return Err(e);
            },
        };
        match num::parse_i64(value.as_str()) {
            Some(v) => Ok(Some(v)),
            None => Err(
                ServerMessageParseError::MalformedTagValue(
                    self.clone(),
                    key.to_owned(),
                    value.clone(),
                ),
            ),
        }
    }

    /// The boolean value of tag `key` when present; absence is no error.
    pub fn try_get_optional_bool(&self, key: &str) -> (r: Result<
        Option<bool>,
        ServerMessageParseError,
    >)
        ensures
            match r {
                Ok(v) => match v {
                    Some(v) => unsigned_tag_ok(self@, key@, u8::MAX as int) && v == bool_tag_val(
                        self@,
                        key@,
                    ),
                    None => !has_tag(self@, key@),
                },
                Err(e) => {
                    &&& has_tag(self@, key@)
                    &&& !unsigned_tag_ok(self@, key@, u8::MAX as int)
                    &&& if tag_val(self@, key@).len() == 0 {
                        err_missing_tag_value(e, self@, key@)
                    } else {
                        err_malformed_tag_value(e, self@, key@, tag_val(self@, key@))
                    }
                },
            },
    {
        let value = match self.try_get_optional_nonempty_tag_value(key) {
            Ok(Some(v)) => v,
            Ok(None) => {
                return Ok(None);
            },
            Err(e) => {
                return Err(e);
            },
        };
        match num::parse_u8(value.as_str()) {
            Some(v) => Ok(Some(v > 0)),
            None => Err(
                ServerMessageParseError::MalformedTagValue(
                    self.clone(),
                    key.to_owned(),
                    value.clone(),
                ),
            ),
        }
    }

    /// The value of tag `key` as milliseconds since the epoch; no range
    /// validation beyond the `u64` width.
    pub fn try_get_timestamp(&self, key: &str) -> (r: Result<u64, ServerMessageParseError>)
        ensures
            match r {
                Ok(v) => unsigned_tag_ok(self@, key@, u64::MAX as int) && v == unsigned_tag_val(
                    self@,
                    key@,
                ),
                Err(e) => {
                    &&& !unsigned_tag_ok(self@, key@, u64::MAX as int)
                    &&& if !has_tag(self@, key@) {
                        err_missing_tag(e, self@, key@)
                    } else if tag_val(self@, key@).len() == 0 {
                        err_missing_tag_value(e, self@, key@)
                    } else {
                        err_malformed_tag_value(e, self@, key@, tag_val(self@, key@))
                    }
                },
            },
    {
        self.try_get_u64(key)
    }

    /// The comma-separated values of tag `key`, exactly as written and in
    /// order (a repeated id is returned repeated, not collapsed to a set);
    /// an empty tag is an empty list.
    pub fn try_get_emote_sets(&self, key: &str) -> (r: Result<
        Vec<String>,
        ServerMessageParseError,
    >)
        ensures
            match r {
                Ok(v) => {
                    &&& has_tag(self@, key@)
                    &&& v.deep_view() == emote_sets_of(tag_val(self@, key@))
                },
                Err(e) => !has_tag(self@, key@) && err_missing_tag(e, self@, key@),
            },
    {
        let value = match self.try_get_tag_value(key) {
            Ok(v) => v,
            Err(e) => {
                return Err(e);
            },
        };
        let s = value.as_str();
        if s.is_empty() {
            let out: Vec<String> = Vec::new();
            proof {
                assert(out.deep_view() =~= emote_sets_of(s@));
            }
            return Ok(out);
        }
        let ghost whole = s@;
        let n = s.unicode_len();
        let mut out: Vec<String> = Vec::new();
        let mut from: usize = 0;
        proof {
            assert(whole.skip(0) =~= whole);
            assert(out.deep_view() + split_on(whole, ',') =~~= split_on(whole, ','));
        }
        loop
            invariant
                from <= n,
                n == s@.len(),
                s@ == whole,
                split_on(whole, ',') =~~= out.deep_view() + split_on(s@.skip(from as int), ','),
            decreases n - from,
        {
            let ghost prev = out.deep_view();
            match find_char_from(s, ',', from) {
                Some(i) => {
                    out.push(s.substring_char(from, i).to_owned());
                    proof {
                        assert(out.deep_view() =~~= prev + seq![
                            whole.subrange(from as int, i as int),
                        ]);
                        lemma_split_on_step(whole.skip(from as int), ',');
                        assert(whole.skip(from as int).take(i - from) =~= whole.subrange(
                            from as int,
                            i as int,
                        ));
                        assert(whole.skip(from as int).skip(i - from + 1) =~= whole.skip(i + 1));
                        assert(split_on(whole, ',') =~~= out.deep_view() + split_on(
                            whole.skip(i + 1),
                            ',',
                        ));
                    }
                    from = i + 1;
                },
                None => {
                    out.push(s.substring_char(from, n).to_owned());
                    proof {
                        assert(out.deep_view() =~~= prev + seq![
                            whole.subrange(from as int, n as int),
                        ]);
                        lemma_split_on_step(whole.skip(from as int), ',');
                        assert(whole.skip(from as int) =~= whole.subrange(from as int, n as int));
                        assert(out.deep_view() == split_on(whole, ','));
                    }
                    return Ok(out);
                },
            }
        }
    }

    /// The comma-separated `name/version` pairs of tag `key`; an empty tag
    /// is an empty list, and a pair without `/` is `MalformedTagValue`.
    pub fn try_get_badges(&self, key: &str) -> (r: Result<Vec<Badge>, ServerMessageParseError>)
        ensures
            match r {
                Ok(v) => {
                    &&& has_tag(self@, key@)
                    &&& badges_tag_ok(tag_val(self@, key@))
                    &&& badge_views(v@) == badges_of(tag_val(self@, key@))
                },
                Err(e) => {
                    if !has_tag(self@, key@) {
                        err_missing_tag(e, self@, key@)
                    } else {
                        !badges_tag_ok(tag_val(self@, key@)) && err_malformed_tag_value(
                            e,
                            self@,
                            key@,
                            tag_val(self@, key@),
                        )
                    }
                },
            },
    {
        let value = match self.try_get_tag_value(key) {
            Ok(v) => v,
            Err(e) => {
                return Err(e);
            },
        };
        let s = value.as_str();
        if s.is_empty() {
            let out: Vec<Badge> = Vec::new();
            proof {
                assert(badge_views(out@) =~= badges_of(s@));
            }
            return Ok(out);
        }
        let ghost whole = s@;
        let ghost segs = split_on(whole, ',');
        let n = s.unicode_len();
        let mut out: Vec<Badge> = Vec::new();
        let ghost mut done: int = 0;
        let mut from: usize = 0;
        proof {
            assert(whole.skip(0) =~= whole);
            assert(segs.take(0) + split_on(whole, ',') =~~= segs);
            assert(segs.take(0) =~= Seq::<Seq<char>>::empty());
            assert(badge_views(out@) =~~= badges_of_segs(segs.take(0)));
        }
        loop
            invariant
                from <= n,
                n == s@.len(),
                s@ == whole,
                whole.len() > 0,
                segs == split_on(whole, ','),
                0 <= done <= segs.len(),
                segs =~~= segs.take(done) + split_on(whole.skip(from as int), ','),
                forall|i: int| 0 <= i < done ==> badge_seg_ok(#[trigger] segs[i]),
                badge_views(out@) =~~= badges_of_segs(segs.take(done)),
            decreases n - from,
        {
            let segend = match find_char_from(s, ',', from) {
                Some(i) => i,
                None => n,
            };
            let ghost seg = whole.subrange(from as int, segend as int);
            proof {
                lemma_split_on_step(whole.skip(from as int), ',');
                if segend < n {
                    assert(whole.skip(from as int).take(segend - from) =~= seg);
                    assert(whole.skip(from as int).skip(segend - from + 1) =~= whole.skip(
                        segend + 1,
                    ));
                } else {
                    assert(whole.skip(from as int) =~= seg);
                }
                lemma_split_on_len(whole.skip(from as int), ',');
                assert(split_on(whole.skip(from as int), ',')[0] == seg);
                assert(segs[done] == seg);
            }
            // the first `/` inside the segment, if any
            let slash = match find_char_from(s, '/', from) {
                Some(j) if j < segend => j,
                _ => {
                    proof {
                        crate::split::lemma_find_char(whole.skip(from as int), '/');
                        assert(forall|i: int|
                            0 <= i < seg.len() ==> seg[i] == whole.skip(from as int)[i]);
                        lemma_find_char_none(seg, '/');
                        assert(!badge_seg_ok(split_on(tag_val(self@, key@), ',')[done]));
                        assert(!badges_tag_ok(tag_val(self@, key@)));
                    }
                    return Err(
                        ServerMessageParseError::MalformedTagValue(
                            self.clone(),
                            key.to_owned(),
                            value.clone(),
                        ),
                    );
                },
            };
            proof {
                crate::split::lemma_find_char(whole.skip(from as int), '/');
                assert(forall|i: int| 0 <= i < seg.len() ==> seg[i] == whole.skip(from as int)[i]);
                assert(seg[slash - from] == '/');
                lemma_find_char_is(seg, '/', slash - from);
                assert(seg.take(slash - from) =~= whole.subrange(from as int, slash as int));
                assert(seg.skip(slash - from + 1) =~= whole.subrange(
                    slash + 1,
                    segend as int,
                ));
            }
            let badge = Badge {
                name: s.substring_char(from, slash).to_owned(),
                version: s.substring_char(slash + 1, segend).to_owned(),
            };
            proof {
                assert(badge_of(seg).name =~= whole.subrange(from as int, slash as int));
                assert(badge_of(seg).version =~= whole.subrange(slash + 1, segend as int));
                assert(badge@ =~~= badge_of(seg));
            }
            let ghost prev_out = out@;
            out.push(badge);
            proof {
                done = done + 1;
                assert(out@.drop_last() =~= prev_out);
                assert(badge_views(out@) == badge_views(prev_out).push(out@.last()@));
                assert(segs.take(done).drop_last() =~= segs.take(done - 1));
                assert(segs.take(done).last() == segs[done - 1]);
                assert(badge_views(out@) =~~= badges_of_segs(segs.take(done)));
            }
            if segend == n {
                proof {
                    assert(segs.take(done) =~= segs);
                    assert(badge_views(out@) == badges_of(whole));
                }
                return Ok(out);
            }
            from = segend + 1;
        }
    }

    /// Reads one emotes-tag segment `id:start-end,start-end,...` lying at
    /// `[from, segend)` of `s`, whose first `:` is at `colon`, and appends
    /// its emotes to `out`.
    #[verifier::rlimit(60)]
    fn collect_segment_emotes(
        &self,
        key: &str,
        value: &String,
        s: &str,
        from: usize,
        colon: usize,
        segend: usize,
        text: &str,
        out: &mut Vec<Emote>,
    ) -> (r: Result<(), ServerMessageParseError>)
        requires
            from <= colon < segend <= s@.len(),
            find_char(s@.subrange(from as int, segend as int), ':') == colon - from,
        ensures
            match r {
                Ok(()) => {
                    &&& emote_seg_ok(s@.subrange(from as int, segend as int))
                    &&& emote_views(final(out)@) =~~= emote_views(old(out)@) + emotes_of_seg(
                        s@.subrange(from as int, segend as int),
                        text@,
                    )
                },
                Err(e) => {
                    &&& !emote_seg_ok(s@.subrange(from as int, segend as int))
                    &&& err_malformed_tag_value(e, self@, key@, value@)
                },
            },
    {
        let ghost seg = s@.subrange(from as int, segend as int);
        let ghost indices = s@.subrange(colon + 1, segend as int);
        let ghost rss = split_on(indices, ',');
        proof {
            assert(seg.take(colon - from) =~= s@.subrange(from as int, colon as int));
            assert(seg.skip(colon - from + 1) =~= indices);
        }
        let id = s.substring_char(from, colon).to_owned();
        let text_n = text.unicode_len();
        let ghost base = colon + 1;
        let ghost prev_views = emote_views(out@);
        let ghost mut rdone: int = 0;
        let mut rfrom: usize = colon + 1;
        let mut more = true;
        proof {
            assert(indices.skip(0) =~= indices);
            assert(rss.take(0) + split_on(indices, ',') =~~= rss);
            assert(emotes_of_ranges(id@, rss.take(0), text@) =~= Seq::<EmoteView>::empty());
        }
        while more
            invariant
                base <= rfrom <= segend,
                id@ == seg.take(colon - from),
                0 <= rdone <= rss.len(),
                more ==> rss =~~= rss.take(rdone) + split_on(
                    indices.skip(rfrom - base),
                    ',',
                ),
                !more ==> rdone == rss.len(),
                forall|i: int| 0 <= i < rdone ==> range_ok(#[trigger] rss[i]),
                emote_views(out@) =~~= prev_views + emotes_of_ranges(
                    id@,
                    rss.take(rdone),
                    text@,
                ),
            decreases if more {
                segend + 1 - rfrom
            } else {
                0
            },
        {
            let rend = match find_char_from(s, ',', rfrom) {
                Some(i) if i < segend => i,
                _ => segend,
            };
            let ghost rs = s@.subrange(rfrom as int, rend as int);
            proof {
                let rest = indices.skip(rfrom - base);
                assert(forall|i: int| 0 <= i < rest.len() ==> rest[i] == s@[rfrom + i]);
                crate::split::lemma_find_char(s@.skip(rfrom as int), ',');
                assert(forall|i: int|
                    0 <= i < rest.len() ==> rest[i] == s@.skip(rfrom as int)[i]);
                if rend < segend {
                    assert(rest[rend - rfrom] == ',');
                    lemma_find_char_is(rest, ',', rend - rfrom);
                } else {
                    lemma_find_char_none(rest, ',');
                }
                lemma_split_on_step(rest, ',');
                if rend < segend {
                    assert(rest.take(rend - rfrom) =~= rs);
                    assert(rest.skip(rend - rfrom + 1) =~= indices.skip(rend + 1 - base));
                } else {
                    assert(rest =~= rs);
                }
                lemma_split_on_len(rest, ',');
                assert(rss[rdone] == rs);
            }
            // the `-` between the two offsets
            let dash = match find_char_from(s, '-', rfrom) {
                Some(j) if j < rend => j,
                _ => {
                    proof {
                        crate::split::lemma_find_char(s@.skip(rfrom as int), '-');
                        assert(forall|i: int|
                            0 <= i < rs.len() ==> rs[i] == s@.skip(rfrom as int)[i]);
                        lemma_find_char_none(rs, '-');
                        assert(!range_ok(rss[rdone]));
                        assert(!emote_seg_ok(seg));
                    }
                    return Err(
                        ServerMessageParseError::MalformedTagValue(
                            self.clone(),
                            key.to_owned(),
                            value.clone(),
                        ),
                    );
                },
            };
            proof {
                crate::split::lemma_find_char(s@.skip(rfrom as int), '-');
                assert(forall|i: int| 0 <= i < rs.len() ==> rs[i] == s@.skip(rfrom as int)[i]);
                assert(rs[dash - rfrom] == '-');
                lemma_find_char_is(rs, '-', dash - rfrom);
                assert(rs.take(dash - rfrom) =~= s@.subrange(rfrom as int, dash as int));
                assert(rs.skip(dash - rfrom + 1) =~= s@.subrange(dash + 1, rend as int));
            }
            let start = match num::parse_usize(s.substring_char(rfrom, dash)) {
                Some(v) => v,
                None => {
                    proof {
                        assert(!range_ok(rss[rdone]));
                        assert(!emote_seg_ok(seg));
                    }
                    return Err(
                        ServerMessageParseError::MalformedTagValue(
                            self.clone(),
                            key.to_owned(),
                            value.clone(),
                        ),
                    );
                },
            };
            let endi = match num::parse_usize(s.substring_char(dash + 1, rend)) {
                Some(v) => v,
                None => {
                    proof {
                        assert(!range_ok(rss[rdone]));
                        assert(!emote_seg_ok(seg));
                    }
                    return Err(
                        ServerMessageParseError::MalformedTagValue(
                            self.clone(),
                            key.to_owned(),
                            value.clone(),
                        ),
                    );
                },
            };
            if endi == usize::MAX || start > endi + 1 {
                proof {
                    assert(!range_ok(rss[rdone]));
                    assert(!emote_seg_ok(seg));
                }
                return Err(
                    ServerMessageParseError::MalformedTagValue(
                        self.clone(),
                        key.to_owned(),
                        value.clone(),
                    ),
                );
            }
            let end = endi + 1;
            let lo = if start < text_n {
                start
            } else {
                text_n
            };
            let hi = if end < text_n {
                end
            } else {
                text_n
            };
            let code = text.substring_char(lo, hi).to_owned();
            let emote = Emote { id: id.clone(), char_range: start..end, code };
            proof {
                assert(emote@ =~~= emote_of(id@, rs, text@));
            }
            let ghost before = emote_views(out@);
            out.push(emote);
            proof {
                rdone = rdone + 1;
                assert(emote_views(out@) =~~= before.push(emote_of(id@, rs, text@)));
                assert(rss.take(rdone).drop_last() =~= rss.take(rdone - 1));
                assert(rss.take(rdone).last() == rss[rdone - 1]);
                assert(emote_views(out@) =~~= prev_views + emotes_of_ranges(
                    id@,
                    rss.take(rdone),
                    text@,
                ));
            }
            if rend == segend {
                proof {
                    assert(rss.take(rdone) =~= rss);
                }
                more = false;
            } else {
                rfrom = rend + 1;
            }
        }
        proof {
            assert(rss.take(rss.len() as int) =~= rss);
            assert(emotes_of_seg(seg, text@) == emotes_of_ranges(id@, rss, text@));
        }
        Ok(())
    }

    /// The emotes of tag `key` over `message_text`: `id:start-end,...`
    /// segments separated by `/`, returned in ascending order of start
    /// offset. An empty tag is an empty list; any malformed piece is
    /// `MalformedTagValue` carrying the whole original value.
    #[verifier::rlimit(60)]
    pub fn try_get_emotes(&self, key: &str, message_text: &str) -> (r: Result<
        Vec<Emote>,
        ServerMessageParseError,
    >)
        ensures
            match r {
                Ok(v) => {
                    &&& has_tag(self@, key@)
                    &&& emotes_tag_ok(tag_val(self@, key@))
                    &&& sorted_by_start(emote_views(v@))
                    &&& emote_views(v@).to_multiset() == emotes_of(
                        tag_val(self@, key@),
                        message_text@,
                    ).to_multiset()
                },
                Err(e) => {
                    if !has_tag(self@, key@) {
                        err_missing_tag(e, self@, key@)
                    } else {
                        !emotes_tag_ok(tag_val(self@, key@)) && err_malformed_tag_value(
                            e,
                            self@,
                            key@,
                            tag_val(self@, key@),
                        )
                    }
                },
            },
    {
        let value = match self.try_get_tag_value(key) {
            Ok(v) => v,
            Err(e) => {
                return Err(e);
            },
        };
        let s = value.as_str();
        if s.is_empty() {
            let out: Vec<Emote> = Vec::new();
            proof {
                assert(emote_views(out@) =~= emotes_of(s@, message_text@));
            }
            return Ok(out);
        }
        let ghost whole = s@;
        let ghost segs = split_on(whole, '/');
        let n = s.unicode_len();
        let mut collected: Vec<Emote> = Vec::new();
        let ghost mut done: int = 0;
        let mut from: usize = 0;
        let mut more = true;
        proof {
            assert(whole.skip(0) =~= whole);
            assert(segs.take(0) + split_on(whole, '/') =~~= segs);
            assert(segs.take(0) =~= Seq::<Seq<char>>::empty());
            assert(emote_views(collected@) =~~= emotes_of_segs(segs.take(0), message_text@));
        }
        while more
            invariant
                from <= n,
                n == s@.len(),
                s@ == whole,
                whole.len() > 0,
                segs == split_on(whole, '/'),
                0 <= done <= segs.len(),
                more ==> segs =~~= segs.take(done) + split_on(whole.skip(from as int), '/'),
                !more ==> done == segs.len(),
                forall|i: int| 0 <= i < done ==> emote_seg_ok(#[trigger] segs[i]),
                emote_views(collected@) =~~= emotes_of_segs(segs.take(done), message_text@),
            decreases if more {
                n + 1 - from
            } else {
                0
            },
        {
            let segend = match find_char_from(s, '/', from) {
                Some(i) => i,
                None => n,
            };
            let ghost seg = whole.subrange(from as int, segend as int);
            proof {
                lemma_split_on_step(whole.skip(from as int), '/');
                if segend < n {
                    assert(whole.skip(from as int).take(segend - from) =~= seg);
                    assert(whole.skip(from as int).skip(segend - from + 1) =~= whole.skip(
                        segend + 1,
                    ));
                } else {
                    assert(whole.skip(from as int) =~= seg);
                }
                lemma_split_on_len(whole.skip(from as int), '/');
                assert(segs[done] == seg);
            }
            // the `:` between the id and the ranges
            let colon = match find_char_from(s, ':', from) {
                Some(j) if j < segend => j,
                _ => {
                    proof {
                        crate::split::lemma_find_char(whole.skip(from as int), ':');
                        assert(forall|i: int|
                            0 <= i < seg.len() ==> seg[i] == whole.skip(from as int)[i]);
                        lemma_find_char_none(seg, ':');
                        assert(!emote_seg_ok(segs[done]));
                        assert(!emotes_tag_ok(tag_val(self@, key@)));
                    }
                    return Err(
                        ServerMessageParseError::MalformedTagValue(
                            self.clone(),
                            key.to_owned(),
                            value.clone(),
                        ),
                    );
                },
            };
            proof {
                crate::split::lemma_find_char(whole.skip(from as int), ':');
                assert(forall|i: int| 0 <= i < seg.len() ==> seg[i] == whole.skip(from as int)[i]);
                assert(seg[colon - from] == ':');
                lemma_find_char_is(seg, ':', colon - from);
            }
            let ghost before = emote_views(collected@);
            match self.collect_segment_emotes(
                key,
                value,
                s,
                from,
                colon,
                segend,
                message_text,
                &mut collected,
            ) {
                Ok(()) => (),
                Err(e) => {
                    proof {
                        assert(!emote_seg_ok(segs[done]));
                        assert(!emotes_tag_ok(tag_val(self@, key@)));
                    }
                    return Err(e);
                },
            }
            proof {
                done = done + 1;
                assert(segs.take(done).drop_last() =~= segs.take(done - 1));
                assert(segs.take(done).last() == segs[done - 1]);
                assert(emote_views(collected@) =~~= emotes_of_segs(
                    segs.take(done),
                    message_text@,
                ));
            }
            if segend == n {
                proof {
                    assert(segs.take(done) =~= segs);
                }
                more = false;
            } else {
                from = segend + 1;
            }
        }
        proof {
            assert(segs.take(segs.len() as int) =~= segs);
            assert(emote_views(collected@) == emotes_of(whole, message_text@));
        }
        Ok(sort_emotes_by_start(collected))
    }

    /// Reply metadata, present only when the `reply-parent-msg-id` tag is:
    /// without that tag there is no reply and no error; with it, the seven
    /// related tags are required.
    pub fn try_get_optional_reply(&self) -> (r: Result<Option<Reply>, ServerMessageParseError>)
        ensures
            match r {
                Ok(v) => match v {
                    Some(rep) => reply_gate(self@) && reply_ok(self@) && reply_of(self@, rep),
                    None => !reply_gate(self@),
                },
                Err(e) => reply_gate(self@) && !reply_ok(self@) && e.raw_view() == self@,
            },
    {
        if self.tags.get("reply-parent-msg-id").is_none() {
            return Ok(None);
        }
        let parent_message_id = match self.try_get_tag_value("reply-parent-msg-id") {
            Ok(v) => v.clone(),
            Err(e) => {
                return Err(e);
            },
        };
        let parent_user_id = match self.try_get_nonempty_tag_value("reply-parent-user-id") {
            Ok(v) => v.clone(),
            Err(e) => {
                return Err(e);
            },
        };
        let parent_user_login = match self.try_get_nonempty_tag_value("reply-parent-user-login") {
            Ok(v) => v.clone(),
            Err(e) => {
                return Err(e);
            },
        };
        let parent_user_name = match self.try_get_nonempty_tag_value("reply-parent-display-name") {
            Ok(v) => v.clone(),
            Err(e) => {
                return Err(e);
            },
        };
        let parent_message_text = match self.try_get_tag_value("reply-parent-msg-body") {
            Ok(v) => v.clone(),
            Err(e) => {
                return Err(e);
            },
        };
        let thread_message_id = match self.try_get_tag_value("reply-thread-parent-msg-id") {
            Ok(v) => v.clone(),
            Err(e) => {
                return Err(e);
            },
        };
        let thread_user_id = match self.try_get_nonempty_tag_value("reply-thread-parent-user-id") {
            Ok(v) => v.clone(),
            Err(e) => {
                return Err(e);
            },
        };
        let thread_user_login = match self.try_get_nonempty_tag_value(
            "reply-thread-parent-user-login",
        ) {
            Ok(v) => v.clone(),
            Err(e) => {
                return Err(e);
            },
        };
        let thread_user_name = match self.try_get_nonempty_tag_value(
            "reply-thread-parent-display-name",
        ) {
            Ok(v) => v.clone(),
            Err(e) => {
                return Err(e);
            },
        };
        Ok(
            Some(
                Reply {
                    parent: ReplyParent {
                        message_id: parent_message_id,
                        message_text: parent_message_text,
                        user: BasicUser {
                            id: parent_user_id,
                            login: parent_user_login,
                            name: parent_user_name,
                        },
                    },
                    thread: ReplyThread {
                        message_id: thread_message_id,
                        user: BasicUser {
                            id: thread_user_id,
                            login: thread_user_login,
                            name: thread_user_name,
                        },
                    },
                },
            ),
        )
    }

    /// Shared-chat source metadata, gated on the `source-id` tag; the two
    /// badge lists fall back to empty on any failure rather than erroring.
    pub fn try_get_source(&self) -> (r: Result<Option<Source>, ServerMessageParseError>)
        ensures
            match r {
                Ok(v) => match v {
                    Some(src) => source_gate(self@) && source_ok(self@) && source_of(self@, src),
                    None => !source_gate(self@),
                },
                Err(e) => source_gate(self@) && !source_ok(self@) && e.raw_view() == self@,
            },
    {
        if self.tags.get("source-id").is_none() {
            return Ok(None);
        }
        let message_id = match self.try_get_nonempty_tag_value("source-id") {
            Ok(v) => v.clone(),
            Err(e) => {
                return Err(e);
            },
        };
        let event_id = match self.try_get_tag_value("source-msg-id") {
            Ok(v) => Some(v.clone()),
            Err(_) => None,
        };
        let channel_id = match self.try_get_nonempty_tag_value("source-room-id") {
            Ok(v) => v.clone(),
            Err(e) => {
                return Err(e);
            },
        };
        let badges = match self.try_get_badges("source-badges") {
            Ok(v) => v,
            Err(_) => Vec::new(),
        };
        let badge_info = match self.try_get_badges("source-badge-info") {
            Ok(v) => v,
            Err(_) => Vec::new(),
        };
        proof {
            assert(badge_views(Seq::<Badge>::empty()) =~= Seq::<BadgeView>::empty());
        }
        Ok(Some(Source { message_id, event_id, channel_id, badges, badge_info }))
    }

    /// The colour tag: the plain tag value, which may be empty.
    pub fn try_get_color(&self, key: &str) -> (r: Result<&String, ServerMessageParseError>)
        ensures
            match r {
                Ok(v) => has_tag(self@, key@) && v@ == tag_val(self@, key@),
                Err(e) => !has_tag(self@, key@) && err_missing_tag(e, self@, key@),
            },
    {
        self.try_get_tag_value(key)
    }
}

} // verus!
