//! The resilient session client for the primary event feed: one logical
//! session over a churning physical connection. This is the decision
//! core: it consumes decoded envelopes and session state and says what to
//! send, what to forward and when to resubscribe; the socket and REST
//! plumbing around it performs the actions.

use vstd::prelude::*;

use crate::registry::{
    key_has_prefix, pair_views, unique_keys, Subscription, SubscriptionRegistry, SubscriptionView,
};
use crate::split::{find_char, find_char_from};

verus! {

/// A live session as the remote describes it: its id and, on a reconnect
/// request, the target to move to.
#[derive(Debug, PartialEq, Eq)]
pub struct WebSocketSession {
    pub id: String,
    pub reconnect_url: Option<String>,
}

/// The payload of a welcome or reconnect envelope.
#[derive(Debug, PartialEq, Eq)]
pub struct SessionPayload {
    pub session: WebSocketSession,
}

/// The payload of a notification envelope: the subscription it belongs to
/// and the event body, forwarded verbatim.
#[derive(Debug, PartialEq, Eq)]
pub struct NotificationPayload {
    pub subscription: Subscription,
    pub event: String,
}

/// The payload of a revocation envelope.
#[derive(Debug, PartialEq, Eq)]
pub struct RevocationPayload {
    pub subscription: Subscription,
}

/// The envelope discriminator as it stands on the wire.
#[derive(Debug, PartialEq, Eq)]
pub struct MessageMetadata {
    pub message_type: String,
}

/// A decoded inbound envelope of the primary feed.
#[derive(Debug, PartialEq, Eq)]
pub enum WebSocketMessage {
    Welcome(SessionPayload),
    Notification(NotificationPayload),
    Reconnect(SessionPayload),
    Revocation(RevocationPayload),
    Keepalive,
}

/// One subscription-creation request the caller must issue upstream.
#[derive(Debug, PartialEq, Eq)]
pub struct SubscribeRequest {
    pub channel: String,
    pub kind: String,
    pub condition: String,
}

/// What a handled envelope asks the surrounding loop to do.
pub struct HandleOutcome {
    /// Forward this payload to the fan-out channel.
    pub forward: Option<NotificationPayload>,
    /// Issue these subscription-creation requests, in order.
    pub subscribe: Vec<SubscribeRequest>,
    /// Open a new connection to this target and expect a welcome first.
    pub reconnect_url: Option<String>,
    /// For each restore request after the mandatory one, the registry key
    /// it re-creates.
    pub restore_keys: Ghost<Seq<Seq<char>>>,
    /// For each registry key that had to be restored, where its request
    /// stands.
    pub restore_index: Ghost<Map<Seq<char>, int>>,
    /// For a handled revocation, the registry key whose entry was removed,
    /// if one carried the revoked id.
    pub revoked_key: Ghost<Option<Seq<char>>>,
}

/// Errors of the decision core.
#[derive(Debug, PartialEq, Eq)]
pub enum ClientError {
    /// A subscription was asked for while no session is established.
    NoSession,
}

/// The condition of the mandatory self-update subscription.
pub open spec fn user_update_condition(user_id: Seq<char>) -> Seq<char> {
    "{\"user_id\":\""@ + user_id + "\"}"@
}

/// The event kinds that must be created at protocol version 2; everything
/// else uses version 1.
pub open spec fn needs_v2(kind: Seq<char>) -> bool {
    ||| kind == "automod.message.hold"@
    ||| kind == "automod.message.update"@
    ||| kind == "channel.moderate"@
    ||| kind == "channel.channel_points_automatic_reward_redemption.add"@
}

/// The version tag chosen for a kind.
pub open spec fn version_of(kind: Seq<char>) -> Seq<char> {
    if needs_v2(kind) {
        "2"@
    } else {
        "1"@
    }
}

/// The creation request body sent over the side channel: kind, chosen
/// version, the condition verbatim, and the websocket transport bound to
/// the session.
pub open spec fn subscription_request_body(
    kind: Seq<char>,
    condition: Seq<char>,
    session_id: Seq<char>,
) -> Seq<char> {
    "{\"type\":\""@ + kind + "\",\"version\":\""@ + version_of(kind)
        + "\",\"condition\":"@ + condition
        + ",\"transport\":{\"method\":\"websocket\",\"session_id\":\""@ + session_id + "\"}}"@
}

/// The registry entry under key `k` must be re-created on a cold start:
/// its key names a channel (it holds `:`) and it is not the mandatory
/// self-update kind, which is re-issued separately.
pub open spec fn needs_restore(reg: Map<Seq<char>, SubscriptionView>, k: Seq<char>) -> bool {
    &&& reg.contains_key(k)
    &&& find_char(k, ':') >= 0
    &&& reg[k].kind != "user.update"@
}

/// Request `r` re-creates the registry entry under key `k`: the channel
/// is the key up to its first `:`, kind and condition are the entry's.
pub open spec fn restores(
    reg: Map<Seq<char>, SubscriptionView>,
    k: Seq<char>,
    r: SubscribeRequest,
) -> bool {
    &&& needs_restore(reg, k)
    &&& r.channel@ == k.take(find_char(k, ':'))
    &&& r.kind@ == reg[k].kind
    &&& r.condition@ == reg[k].condition
}

/// The shape of a cold-start request list over registry `reg`: the
/// mandatory self-update request first, then one request per tracked
/// channel subscription. `keys[i]` names the registry key that request
/// `i + 1` re-creates, and `index` says, for every key that had to be
/// restored, where its request stands.
pub open spec fn cold_start_shape(
    reg: Map<Seq<char>, SubscriptionView>,
    user_id: Seq<char>,
    user_login: Seq<char>,
    subscribe: Seq<SubscribeRequest>,
    keys: Seq<Seq<char>>,
    index: Map<Seq<char>, int>,
) -> bool {
    &&& subscribe.len() >= 1
    &&& subscribe[0].channel@ == user_login
    &&& subscribe[0].kind@ == "user.update"@
    &&& subscribe[0].condition@ == user_update_condition(user_id)
    &&& (reg == Map::<Seq<char>, SubscriptionView>::empty() ==> subscribe.len() == 1)
    &&& keys.len() + 1 == subscribe.len()
    &&& forall|i: int|
        0 <= i < keys.len() ==> restores(reg, #[trigger] keys[i], subscribe[i + 1])
    &&& forall|k: Seq<char>|
        #[trigger] needs_restore(reg, k) ==> {
            &&& index.contains_key(k)
            &&& 1 <= index[k] < subscribe.len()
            &&& restores(reg, k, subscribe[index[k]])
        }
}

/// The session client's durable state: who the user is, the current
/// session id, the tracked subscriptions, and the two connection flags.
pub struct EventSubClient {
    pub user_id: String,
    pub user_login: String,
    pub session_id: Option<String>,
    pub subscriptions: SubscriptionRegistry,
    pub connected: bool,
    pub reconnecting: bool,
}

impl EventSubClient {
    /// The subscription registry never repeats a key.
    pub open spec fn wf(&self) -> bool {
        self.subscriptions.wf()
    }

    /// A fresh client for the given user: no session, no subscriptions,
    /// disconnected.
    pub fn new(user_id: String, user_login: String) -> (r: EventSubClient)
        ensures
            r.wf(),
            r.user_id == user_id,
            r.user_login == user_login,
            r.session_id is None,
            r.subscriptions@ == Map::<Seq<char>, SubscriptionView>::empty(),
            !r.connected,
            !r.reconnecting,
    {
        EventSubClient {
            user_id,
            user_login,
            session_id: None,
            subscriptions: SubscriptionRegistry::new(),
            connected: false,
            reconnecting: false,
        }
    }

    /// Whether the physical connection is up.
    pub fn connected(&self) -> (r: bool)
        ensures
            r == self.connected,
    {
        self.connected
    }

    /// Marks the physical connection up or down.
    pub fn set_connected(&mut self, value: bool)
        ensures
            *final(self) == (EventSubClient { connected: value, ..*old(self) }),
    {
        self.connected = value;
    }

    /// Tears down per-connection state when the socket ends: the session
    /// id is cleared and the client is marked disconnected; subscriptions
    /// survive for restoration.
    pub fn on_disconnect(&mut self)
        ensures
            *final(self) == (EventSubClient { connected: false, session_id: None, ..*old(self) }),
    {
        self.connected = false;
        self.session_id = None;
    }

    /// On the first welcome since process start: drains the registry and
    /// builds the requests to issue, the mandatory self-update first, then
    /// one request per drained channel subscription that is not itself the
    /// self-update kind.
    #[verifier::rlimit(100)]
    #[verifier::spinoff_prover]
    fn cold_start_requests(&mut self) -> (r: (Vec<SubscribeRequest>, Ghost<Seq<Seq<char>>>, Ghost<
        Map<Seq<char>, int>,
    >))
        requires
            old(self).wf(),
        ensures
            final(self).wf(),
            final(self).subscriptions@ == Map::<Seq<char>, SubscriptionView>::empty(),
            final(self).user_id == old(self).user_id,
            final(self).user_login == old(self).user_login,
            final(self).session_id == old(self).session_id,
            final(self).connected == old(self).connected,
            final(self).reconnecting == old(self).reconnecting,
            cold_start_shape(old(self).subscriptions@, old(self).user_id@, old(self).user_login@, r.0@, r.1@, r.2@),
    {
        let drained = self.subscriptions.snapshot_and_drain();
        let mut subscribe: Vec<SubscribeRequest> = Vec::new();
        let mut condition = "{\"user_id\":\"".to_owned();
        condition.append(self.user_id.as_str());
        condition.append("\"}");
        subscribe.push(
            SubscribeRequest {
                channel: self.user_login.clone(),
                kind: "user.update".to_owned(),
                condition,
            },
        );
        let ghost reg = old(self).subscriptions@;
        let ghost dv = pair_views(drained@);
        // the key each issued request restores, and where each key's
        // request stands
        let ghost mut ks: Seq<Seq<char>> = Seq::empty();
        let ghost mut posn: Map<Seq<char>, int> = Map::empty();
        let mut j: usize = 0;
        while j < drained.len()
            invariant
                0 <= j <= drained@.len(),
                dv == pair_views(drained@),
                reg == old(self).subscriptions@,
                unique_keys(dv),
                forall|x: int|
                    0 <= x < dv.len() ==> reg.contains_key((#[trigger] dv[x]).0) && reg[dv[x].0]
                        == dv[x].1,
                forall|k: Seq<char>|
                    reg.contains_key(k) ==> exists|x: int|
                        0 <= x < dv.len() && (#[trigger] dv[x]).0 == k,
                subscribe@.len() >= 1,
                subscribe@[0].channel@ == old(self).user_login@,
                subscribe@[0].kind@ == "user.update"@,
                subscribe@[0].condition@ == user_update_condition(old(self).user_id@),
                ks.len() == subscribe@.len() - 1,
                forall|i: int| 0 <= i < ks.len() ==> restores(reg, #[trigger] ks[i], subscribe@[i + 1]),
                forall|k: Seq<char>|
                    #[trigger] posn.contains_key(k) ==> 1 <= posn[k] < subscribe@.len()
                        && restores(reg, k, subscribe@[posn[k]]),
                forall|x: int|
                    0 <= x < j && needs_restore(reg, (#[trigger] dv[x]).0) ==> posn.contains_key(
                        dv[x].0,
                    ),
            decreases drained@.len() - j,
        {
            let (key, sub) = &drained[j];
            proof {
                assert(dv[j as int] == (key@, sub@));
            }
            let colon = find_char_from(key.as_str(), ':', 0);
            proof {
                assert(key@.skip(0) =~= key@);
            }
            match colon {
                Some(c) => {
                    proof {
                        assert(find_char(key@, ':') == c);
                    }
                    if !(sub.kind == "user.update".to_owned()) {
                        let ghost before = subscribe@;
                        subscribe.push(
                            SubscribeRequest {
                                channel: key.as_str().substring_char(0, c).to_owned(),
                                kind: sub.kind.clone(),
                                condition: sub.condition.clone(),
                            },
                        );
                        proof {
                            assert(key@.subrange(0, c as int) =~= key@.take(find_char(key@, ':')));
                            assert(restores(reg, key@, subscribe@[subscribe@.len() - 1]));
                            assert(forall|i: int|
                                0 <= i < before.len() ==> subscribe@[i] == before[i]);
                            ks = ks.push(key@);
                            posn = posn.insert(key@, subscribe@.len() - 1);
                            assert(forall|i: int|
                                0 <= i < ks.len() - 1 ==> ks.drop_last()[i] == ks[i]);
                        }
                    } else {
                        proof {
                            assert(reg[dv[j as int].0].kind == "user.update"@);
                            assert(!needs_restore(reg, dv[j as int].0));
                        }
                    }
                },
                None => {
                    proof {
                        assert(find_char(key@, ':') < 0);
                        assert(!needs_restore(reg, dv[j as int].0));
                    }
                },
            }
            j = j + 1;
        }
        proof {
            if subscribe@.len() > 1 {
                assert(restores(reg, ks[0], subscribe@[1]));
                assert(reg.contains_key(ks[0]));
            }
            assert forall|k: Seq<char>| #[trigger] needs_restore(reg, k) implies {
                &&& posn.contains_key(k)
                &&& 1 <= posn[k] < subscribe@.len()
                &&& restores(reg, k, subscribe@[posn[k]])
            } by {
                let x = choose|x: int| 0 <= x < dv.len() && (#[trigger] dv[x]).0 == k;
                assert(needs_restore(reg, dv[x].0));
            }
        }
        (subscribe, Ghost(ks), Ghost(posn))
    }

    /// Handles one decoded envelope.
    ///
    /// A welcome stores the session id; the first welcome since process
    /// start re-issues the mandatory self-update subscription and then,
    /// best effort, everything the registry held, while a welcome that
    /// answers a reconnect handoff asks for no resubscription at all. A
    /// notification is forwarded verbatim. A reconnect request hands the
    /// target back and arms the handoff flag. A revocation drops the
    /// tracked subscription whose remote id it names; the removal already
    /// happened server-side, so no upstream call follows. A keepalive does
    /// nothing.
    #[verifier::rlimit(100)]
    pub fn handle_message(&mut self, msg: WebSocketMessage) -> (r: HandleOutcome)
        requires
            old(self).wf(),
            msg matches WebSocketMessage::Reconnect(p) ==> p.session.reconnect_url is Some,
        ensures
            final(self).wf(),
            final(self).user_id == old(self).user_id,
            final(self).user_login == old(self).user_login,
            match msg {
                WebSocketMessage::Welcome(p) => {
                    &&& final(self).session_id == Some(p.session.id)
                    &&& !final(self).reconnecting
                    &&& r.forward is None
                    &&& r.reconnect_url is None
                    &&& if old(self).reconnecting {
                        // continuity after a handoff: nothing to re-issue
                        &&& r.subscribe@.len() == 0
                        &&& final(self).subscriptions@ == old(self).subscriptions@
                    } else {
                        // cold start: drain, mandatory self-update first,
                        // then everything that was tracked
                        &&& final(self).subscriptions@ == Map::<
                            Seq<char>,
                            SubscriptionView,
                        >::empty()
                        &&& cold_start_shape(
                            old(self).subscriptions@,
                            old(self).user_id@,
                            old(self).user_login@,
                            r.subscribe@,
                            r.restore_keys@,
                            r.restore_index@,
                        )
                    }
                },
                WebSocketMessage::Notification(p) => {
                    &&& r.forward == Some(p)
                    &&& r.subscribe@.len() == 0
                    &&& r.reconnect_url is None
                    &&& *final(self) == *old(self)
                },
                WebSocketMessage::Reconnect(p) => {
                    &&& r.forward is None
                    &&& r.subscribe@.len() == 0
                    &&& r.reconnect_url == p.session.reconnect_url
                    &&& *final(self) == (EventSubClient { reconnecting: true, ..*old(self) })
                },
                WebSocketMessage::Revocation(p) => {
                    &&& r.forward is None
                    &&& r.subscribe@.len() == 0
                    &&& r.reconnect_url is None
                    &&& match r.revoked_key@ {
                        Some(k) => {
                            &&& old(self).subscriptions@.contains_key(k)
                            &&& old(self).subscriptions@[k].id == p.subscription.id@
                            &&& final(self).subscriptions@ == old(self).subscriptions@.remove(k)
                        },
                        None => {
                            &&& final(self).subscriptions@ == old(self).subscriptions@
                            &&& forall|k: Seq<char>|
                                #[trigger] old(self).subscriptions@.contains_key(k) ==> old(
                                    self,
                                ).subscriptions@[k].id != p.subscription.id@
                        },
                    }
                    &&& final(self).session_id == old(self).session_id
                    &&& final(self).reconnecting == old(self).reconnecting
                    &&& final(self).connected == old(self).connected
                },
                WebSocketMessage::Keepalive => {
                    &&& r.forward is None
                    &&& r.subscribe@.len() == 0
                    &&& r.reconnect_url is None
                    &&& *final(self) == *old(self)
                },
            },
    {
        match msg {
            WebSocketMessage::Welcome(p) => {
                self.session_id = Some(p.session.id);
                let was_reconnecting = self.reconnecting;
                self.reconnecting = false;
                if was_reconnecting {
                    return HandleOutcome {
                        forward: None,
                        subscribe: Vec::new(),
                        reconnect_url: None,
                        restore_keys: Ghost(Seq::empty()),
                        restore_index: Ghost(Map::empty()),
                        revoked_key: Ghost(None),
                    };
                }
                let (subscribe, restore_keys, restore_index) = self.cold_start_requests();
                HandleOutcome {
                    forward: None,
                    subscribe,
                    reconnect_url: None,
                    restore_keys,
                    restore_index,
                    revoked_key: Ghost(None),
                }
            },
            WebSocketMessage::Notification(p) => HandleOutcome {
                forward: Some(p),
                subscribe: Vec::new(),
                reconnect_url: None,
                restore_keys: Ghost(Seq::empty()),
                restore_index: Ghost(Map::empty()),
                revoked_key: Ghost(None),
            },
            WebSocketMessage::Reconnect(p) => {
                self.reconnecting = true;
                HandleOutcome {
                    forward: None,
                    subscribe: Vec::new(),
                    reconnect_url: p.session.reconnect_url,
                    restore_keys: Ghost(Seq::empty()),
                    restore_index: Ghost(Map::empty()),
                    revoked_key: Ghost(None),
                }
            },
            WebSocketMessage::Revocation(p) => {
                let removed = self.subscriptions.remove_by_id(p.subscription.id.as_str());
                let revoked_key: Ghost<Option<Seq<char>>> = match &removed {
                    Some(entry) => Ghost(Some(entry.0@)),
                    None => Ghost(None),
                };
                HandleOutcome {
                    forward: None,
                    subscribe: Vec::new(),
                    reconnect_url: None,
                    restore_keys: Ghost(Seq::empty()),
                    restore_index: Ghost(Map::empty()),
                    revoked_key,
                }
            },
            WebSocketMessage::Keepalive => HandleOutcome {
                forward: None,
                subscribe: Vec::new(),
                reconnect_url: None,
                restore_keys: Ghost(Seq::empty()),
                restore_index: Ghost(Map::empty()),
                revoked_key: Ghost(None),
            },
        }
    }

    /// The creation request body for one subscription, bound to the
    /// current session; asking without an established session is an
    /// error, exactly then.
    pub fn subscribe_body(&self, event: &str, condition: &str) -> (r: Result<String, ClientError>)
        ensures
            match r {
                Ok(body) => self.session_id matches Some(sid) && body@
                    == subscription_request_body(event@, condition@, sid@),
                Err(e) => self.session_id is None && e == ClientError::NoSession,
            },
    {
        let sid = match &self.session_id {
            Some(sid) => sid,
            None => {
                return Err(ClientError::NoSession);
            },
        };
        let version = eventsub_version(event);
        let mut body = "{\"type\":\"".to_owned();
        body.append(event);
        body.append("\",\"version\":\"");
        body.append(version);
        body.append("\",\"condition\":");
        body.append(condition);
        body.append(",\"transport\":{\"method\":\"websocket\",\"session_id\":\"");
        body.append(sid.as_str());
        body.append("\"}}");
        Ok(body)
    }

    /// The creation request bodies for a batch of subscriptions, one per
    /// `(kind, condition)` pair, in order; the caller issues them
    /// concurrently and best effort. Without an established session the
    /// whole batch is refused.
    pub fn subscribe_all_bodies(&self, subscriptions: &Vec<(String, String)>) -> (r: Result<
        Vec<String>,
        ClientError,
    >)
        ensures
            match r {
                Ok(bodies) => {
                    &&& self.session_id matches Some(sid) && bodies@.len()
                        == subscriptions@.len() && forall|i: int|
                        0 <= i < bodies@.len() ==> (#[trigger] bodies@[i])@
                            == subscription_request_body(
                            subscriptions@[i].0@,
                            subscriptions@[i].1@,
                            sid@,
                        )
                },
                Err(e) => self.session_id is None && e == ClientError::NoSession,
            },
    {
        if self.session_id.is_none() {
            return Err(ClientError::NoSession);
        }
        let mut bodies: Vec<String> = Vec::new();
        let mut i: usize = 0;
        while i < subscriptions.len()
            invariant
                0 <= i <= subscriptions@.len(),
                self.session_id is Some,
                bodies@.len() == i,
                forall|x: int|
                    0 <= x < i ==> (#[trigger] bodies@[x])@ == subscription_request_body(
                        subscriptions@[x].0@,
                        subscriptions@[x].1@,
                        self.session_id->0@,
                    ),
            decreases subscriptions@.len() - i,
        {
            let (kind, condition) = &subscriptions[i];
            match self.subscribe_body(kind.as_str(), condition.as_str()) {
                Ok(body) => bodies.push(body),
                Err(_) => {
                    // cannot happen: the session stays established for the
                    // whole batch
                    proof {
                        assert(false);
                    }
                },
            }
            i = i + 1;
        }
        Ok(bodies)
    }

    /// Records a subscription the upstream call created, under the key
    /// `channel:kind`; a later insert under the same key overwrites.
    pub fn record_subscription(
        &mut self,
        channel: &str,
        event: &str,
        condition: String,
        remote_id: String,
    )
        requires
            old(self).wf(),
        ensures
            final(self).wf(),
            final(self).subscriptions@ == old(self).subscriptions@.insert(
                channel@ + ":"@ + event@,
                SubscriptionView { id: remote_id@, kind: event@, condition: condition@ },
            ),
            final(self).session_id == old(self).session_id,
            final(self).reconnecting == old(self).reconnecting,
            final(self).connected == old(self).connected,
            final(self).user_id == old(self).user_id,
            final(self).user_login == old(self).user_login,
    {
        let key = composite_key(channel, event);
        self.subscriptions.insert(
            key,
            Subscription { id: remote_id, kind: event.to_owned(), condition },
        );
    }

    /// Removes the subscription under `channel:kind` and returns its
    /// descriptor so the caller can revoke it upstream; local removal is
    /// the source of truth and is not rolled back.
    pub fn unsubscribe(&mut self, channel: &str, event: &str) -> (r: Option<Subscription>)
        requires
            old(self).wf(),
        ensures
            final(self).wf(),
            match r {
                Some(s) => {
                    &&& old(self).subscriptions@.contains_key(channel@ + ":"@ + event@)
                    &&& s@ == old(self).subscriptions@[channel@ + ":"@ + event@]
                    &&& final(self).subscriptions@ == old(self).subscriptions@.remove(
                        channel@ + ":"@ + event@,
                    )
                },
                None => {
                    &&& !old(self).subscriptions@.contains_key(channel@ + ":"@ + event@)
                    &&& final(self).subscriptions@ == old(self).subscriptions@
                },
            },
    {
        let key = composite_key(channel, event);
        self.subscriptions.remove(key.as_str())
    }

    /// Removes every subscription of the channel and returns the removed
    /// entries, one per removed subscription with no key repeated, so the
    /// caller can revoke each upstream exactly once.
    pub fn unsubscribe_all(&mut self, channel: &str) -> (r: Vec<(String, Subscription)>)
        requires
            old(self).wf(),
        ensures
            final(self).wf(),
            forall|k: Seq<char>|
                final(self).subscriptions@.contains_key(k) <==> (
                old(self).subscriptions@.contains_key(k) && !key_has_prefix(k, channel@ + ":"@)),
            forall|k: Seq<char>|
                #[trigger] final(self).subscriptions@.contains_key(k) ==> final(self).subscriptions@[k]
                    == old(self).subscriptions@[k],
            forall|i: int|
                0 <= i < pair_views(r@).len() ==> {
                    &&& key_has_prefix((#[trigger] pair_views(r@)[i]).0, channel@ + ":"@)
                    &&& old(self).subscriptions@.contains_key(pair_views(r@)[i].0)
                    &&& pair_views(r@)[i].1 == old(self).subscriptions@[pair_views(r@)[i].0]
                },
            unique_keys(pair_views(r@)),
            forall|k: Seq<char>|
                old(self).subscriptions@.contains_key(k) && key_has_prefix(k, channel@ + ":"@)
                    ==> exists|i: int|
                    0 <= i < pair_views(r@).len() && (#[trigger] pair_views(r@)[i]).0 == k,
    {
        let mut prefix = channel.to_owned();
        prefix.append(":");
        let ghost pre = self.subscriptions@;
        let r = self.subscriptions.remove_all_with_prefix(prefix.as_str());
        proof {
            assert(prefix@ == channel@ + ":"@);
            assert forall|k: Seq<char>|
                self.subscriptions@.contains_key(k) <==> (pre.contains_key(k) && !key_has_prefix(
                    k,
                    channel@ + ":"@,
                )) by {
                assert(key_has_prefix(k, prefix@) == key_has_prefix(k, channel@ + ":"@));
            }
            assert forall|i: int| 0 <= i < pair_views(r@).len() implies key_has_prefix(
                (#[trigger] pair_views(r@)[i]).0,
                channel@ + ":"@,
            ) by {
                assert(key_has_prefix(pair_views(r@)[i].0, prefix@));
            }
            assert forall|k: Seq<char>|
                pre.contains_key(k) && key_has_prefix(k, channel@ + ":"@) implies exists|i: int|
                0 <= i < pair_views(r@).len() && (#[trigger] pair_views(r@)[i]).0 == k by {
                assert(key_has_prefix(k, prefix@) == key_has_prefix(k, channel@ + ":"@));
            }
        }
        r
    }
}

/// The composite registry key `channel:kind`.
fn composite_key(channel: &str, event: &str) -> (r: String)
    ensures
        r@ == channel@ + ":"@ + event@,
{
    let mut key = channel.to_owned();
    key.append(":");
    key.append(event);
    key
}

/// The protocol version tag for a kind: a fixed allow-list of kinds needs
/// the newer version, everything else the default.
pub fn eventsub_version(event: &str) -> (r: &'static str)
    ensures
        r@ == version_of(event@),
{
    let e = event.to_owned();
    if e == "automod.message.hold".to_owned() || e == "automod.message.update".to_owned() || e
        == "channel.moderate".to_owned() || e
        == "channel.channel_points_automatic_reward_redemption.add".to_owned() {
        "2"
    } else {
        "1"
    }
}

} // verus!
