//! The resilient session client for the secondary event feed, framed with
//! a single-byte operation code per frame. This is the decision core: the
//! socket loop around it reads frames, hands the decoded plain values in,
//! and sends whatever frame text comes back.

use vstd::prelude::*;

use crate::registry::{
    key_has_prefix, pair_views, Subscription, SubscriptionRegistry, SubscriptionView,
};

verus! {

/// The plain values the decision core reads out of a frame's payload: the
/// session id a hello carries, the numeric code an end-of-stream carries,
/// and the raw payload text for forwarding.
#[derive(Debug, PartialEq, Eq)]
pub struct FramePayload {
    pub session_id: Option<String>,
    pub code: Option<u64>,
    pub raw: String,
}

/// What a handled frame asks the surrounding loop to do.
#[derive(Debug, PartialEq, Eq)]
pub enum FrameAction {
    /// Hand this payload to the fan-out channel.
    Forward(String),
    /// Nothing; the frame was a no-op or carried an unknown code.
    Ignore,
    /// Break out of the receive loop and open a fresh connection; the
    /// stored session id will be resumed.
    Resume,
}

/// The opcode of an inbound dispatch frame.
pub open spec fn op_dispatch() -> u8 {
    0
}

/// The opcode of the hello frame that issues a session id.
pub open spec fn op_hello() -> u8 {
    1
}

/// The opcode of the reconnect/end-of-stream frame.
pub open spec fn op_end_of_stream() -> u8 {
    7
}

/// The end-of-stream codes after which the session can be resumed on a
/// fresh connection.
pub open spec fn resumable_code(c: u64) -> bool {
    c == 4000 || c == 4006 || c == 4008
}

/// The outbound resume frame carrying a stored session id.
pub open spec fn resume_frame(session_id: Seq<char>) -> Seq<char> {
    "{\"op\":34,\"d\":{\"session_id\":\""@ + session_id + "\"}}"@
}

/// The outbound subscribe frame for an event type and condition.
pub open spec fn subscribe_frame(event: Seq<char>, condition: Seq<char>) -> Seq<char> {
    "{\"op\":35,\"d\":{\"type\":\""@ + event + "\",\"condition\":"@ + condition + "}}"@
}

/// The outbound unsubscribe frame for an event type and condition.
pub open spec fn unsubscribe_frame(event: Seq<char>, condition: Seq<char>) -> Seq<char> {
    "{\"op\":36,\"d\":{\"type\":\""@ + event + "\",\"condition\":"@ + condition + "}}"@
}

/// The session client's durable state for the secondary feed: the session
/// id the remote issued, the tracked subscriptions, and the connection
/// flag.
pub struct SeventTvClient {
    pub session_id: Option<String>,
    pub subscriptions: SubscriptionRegistry,
    pub connected: bool,
}

impl SeventTvClient {
    /// The subscription registry never repeats a key.
    pub open spec fn wf(&self) -> bool {
        self.subscriptions.wf()
    }

    /// A fresh client: no session, no subscriptions, disconnected.
    pub fn new() -> (r: SeventTvClient)
        ensures
            r.wf(),
            r.session_id is None,
            r.subscriptions@ == Map::<Seq<char>, SubscriptionView>::empty(),
            !r.connected,
    {
        SeventTvClient {
            session_id: None,
            subscriptions: SubscriptionRegistry::new(),
            connected: false,
        }
    }

    /// Whether the physical connection is up.
    pub fn connected(&self) -> (r: bool)
        ensures
            r == self.connected,
    {
        self.connected
    }

    /// On a freshly opened connection: marks the client connected and,
    /// when a session id from an earlier connection is stored, hands back
    /// the resume frame to send optimistically before reading on.
    pub fn on_connect(&mut self) -> (r: Option<String>)
        ensures
            final(self).connected,
            final(self).session_id == old(self).session_id,
            final(self).subscriptions == old(self).subscriptions,
            match r {
                Some(frame) => old(self).session_id matches Some(sid) && frame@ == resume_frame(
                    sid@,
                ),
                None => old(self).session_id is None,
            },
    {
        self.connected = true;
        match &self.session_id {
            Some(sid) => {
                let mut frame = "{\"op\":34,\"d\":{\"session_id\":\"".to_owned();
                frame.append(sid.as_str());
                frame.append("\"}}");
                Some(frame)
            },
            None => None,
        }
    }

    /// A close frame at the transport level: the client is marked
    /// disconnected; session id and subscriptions survive.
    pub fn on_close(&mut self)
        ensures
            *final(self) == (SeventTvClient { connected: false, ..*old(self) }),
    {
        self.connected = false;
    }

    /// Handles one inbound frame, already decoded to its opcode and the
    /// plain values of its payload.
    ///
    /// A dispatch frame is forwarded verbatim. A hello frame stores the
    /// session id it carries. An end-of-stream frame with a resumable
    /// code asks for a fresh connection; any other code is ignored, as is
    /// any unknown opcode.
    pub fn handle_frame(&mut self, op: u8, d: FramePayload) -> (r: FrameAction)
        ensures
            final(self).connected == old(self).connected,
            final(self).subscriptions == old(self).subscriptions,
            if op == op_dispatch() {
                &&& r == FrameAction::Forward(d.raw)
                &&& final(self).session_id == old(self).session_id
            } else if op == op_hello() {
                &&& r == FrameAction::Ignore
                &&& final(self).session_id == (if d.session_id is Some {
                    d.session_id
                } else {
                    old(self).session_id
                })
            } else if op == op_end_of_stream() {
                &&& final(self).session_id == old(self).session_id
                &&& r == (if d.code matches Some(c) && resumable_code(c) {
                    FrameAction::Resume
                } else {
                    FrameAction::Ignore
                })
            } else {
                &&& r == FrameAction::Ignore
                &&& final(self).session_id == old(self).session_id
            },
    {
        if op == 0 {
            FrameAction::Forward(d.raw)
        } else if op == 1 {
            match d.session_id {
                Some(id) => {
                    self.session_id = Some(id);
                },
                None => (),
            }
            FrameAction::Ignore
        } else if op == 7 {
            match d.code {
                Some(c) => {
                    if c == 4000 || c == 4006 || c == 4008 {
                        FrameAction::Resume
                    } else {
                        FrameAction::Ignore
                    }
                },
                None => FrameAction::Ignore,
            }
        } else {
            FrameAction::Ignore
        }
    }

    /// Tracks a subscription under `channel:event` and hands back the
    /// subscribe frame to send.
    pub fn subscribe(&mut self, channel: &str, event: &str, condition: String) -> (r: String)
        requires
            old(self).wf(),
        ensures
            final(self).wf(),
            r@ == subscribe_frame(event@, condition@),
            final(self).subscriptions@ == old(self).subscriptions@.insert(
                channel@ + ":"@ + event@,
                SubscriptionView { id: ""@, kind: event@, condition: condition@ },
            ),
            final(self).session_id == old(self).session_id,
            final(self).connected == old(self).connected,
    {
        let mut frame = "{\"op\":35,\"d\":{\"type\":\"".to_owned();
        frame.append(event);
        frame.append("\",\"condition\":");
        frame.append(condition.as_str());
        frame.append("}}");
        let mut key = channel.to_owned();
        key.append(":");
        key.append(event);
        proof {
            reveal_strlit("");
        }
        self.subscriptions.insert(
            key,
            Subscription { id: "".to_owned(), kind: event.to_owned(), condition },
        );
        frame
    }

    /// Stops tracking the subscription under `channel:event`; when one was
    /// tracked, hands back the unsubscribe frame carrying the condition it
    /// was created with.
    pub fn unsubscribe(&mut self, channel: &str, event: &str) -> (r: Option<String>)
        requires
            old(self).wf(),
        ensures
            final(self).wf(),
            final(self).session_id == old(self).session_id,
            final(self).connected == old(self).connected,
            match r {
                Some(frame) => {
                    &&& old(self).subscriptions@.contains_key(channel@ + ":"@ + event@)
                    &&& frame@ == unsubscribe_frame(
                        event@,
                        old(self).subscriptions@[channel@ + ":"@ + event@].condition,
                    )
                    &&& final(self).subscriptions@ == old(self).subscriptions@.remove(
                        channel@ + ":"@ + event@,
                    )
                },
                None => {
                    &&& !old(self).subscriptions@.contains_key(channel@ + ":"@ + event@)
                    &&& final(self).subscriptions@ == old(self).subscriptions@
                },
            },
    {
        let mut key = channel.to_owned();
        key.append(":");
        key.append(event);
        match self.subscriptions.remove(key.as_str()) {
            Some(sub) => {
                let mut frame = "{\"op\":36,\"d\":{\"type\":\"".to_owned();
                frame.append(event);
                frame.append("\",\"condition\":");
                frame.append(sub.condition.as_str());
                frame.append("}}");
                Some(frame)
            },
            None => None,
        }
    }

    /// Stops tracking every subscription of the channel and hands back,
    /// per removed entry, its key and the unsubscribe frame to send: one
    /// frame per removed entry, no key repeated.
    pub fn unsubscribe_all(&mut self, channel: &str) -> (r: Vec<(String, String)>)
        requires
            old(self).wf(),
        ensures
            final(self).wf(),
            final(self).session_id == old(self).session_id,
            final(self).connected == old(self).connected,
            forall|k: Seq<char>|
                final(self).subscriptions@.contains_key(k) <==> (
                old(self).subscriptions@.contains_key(k) && !key_has_prefix(k, channel@ + ":"@)),
            forall|k: Seq<char>|
                #[trigger] final(self).subscriptions@.contains_key(k) ==> final(self).subscriptions@[k]
                    == old(self).subscriptions@[k],
            forall|i: int|
                0 <= i < r@.len() ==> {
                    &&& key_has_prefix((#[trigger] r@[i]).0@, channel@ + ":"@)
                    &&& old(self).subscriptions@.contains_key(r@[i].0@)
                    &&& r@[i].1@ == unsubscribe_frame(
                        old(self).subscriptions@[r@[i].0@].kind,
                        old(self).subscriptions@[r@[i].0@].condition,
                    )
                },
            forall|i: int, j: int|
                0 <= i < j < r@.len() ==> (#[trigger] r@[i]).0@ != (#[trigger] r@[j]).0@,
            forall|k: Seq<char>|
                old(self).subscriptions@.contains_key(k) && key_has_prefix(k, channel@ + ":"@)
                    ==> exists|i: int| 0 <= i < r@.len() && (#[trigger] r@[i]).0@ == k,
    {
        let mut prefix = channel.to_owned();
        prefix.append(":");
        let ghost pre = self.subscriptions@;
        let removed = self.subscriptions.remove_all_with_prefix(prefix.as_str());
        proof {
            assert(prefix@ == channel@ + ":"@);
            assert forall|k: Seq<char>|
                self.subscriptions@.contains_key(k) <==> (pre.contains_key(k) && !key_has_prefix(
                    k,
                    channel@ + ":"@,
                )) by {
                assert(key_has_prefix(k, prefix@) == key_has_prefix(k, channel@ + ":"@));
            }
        }
        let ghost rv = pair_views(removed@);
        let mut out: Vec<(String, String)> = Vec::new();
        let mut i: usize = 0;
        while i < removed.len()
            invariant
                0 <= i <= removed@.len(),
                rv == pair_views(removed@),
                out@.len() == i,
                forall|x: int|
                    0 <= x < rv.len() ==> {
                        &&& key_has_prefix((#[trigger] rv[x]).0, prefix@)
                        &&& pre.contains_key(rv[x].0)
                        &&& rv[x].1 == pre[rv[x].0]
                    },
                forall|x: int|
                    0 <= x < i ==> {
                        &&& (#[trigger] out@[x]).0@ == rv[x].0
                        &&& out@[x].1@ == unsubscribe_frame(rv[x].1.kind, rv[x].1.condition)
                    },
            decreases removed@.len() - i,
        {
            let (key, sub) = &removed[i];
            proof {
                assert(rv[i as int] == (key@, sub@));
            }
            let mut frame = "{\"op\":36,\"d\":{\"type\":\"".to_owned();
            frame.append(sub.kind.as_str());
            frame.append("\",\"condition\":");
            frame.append(sub.condition.as_str());
            frame.append("}}");
            out.push((key.clone(), frame));
            i = i + 1;
        }
        proof {
            assert forall|x: int| 0 <= x < out@.len() implies {
                &&& key_has_prefix((#[trigger] out@[x]).0@, channel@ + ":"@)
                &&& pre.contains_key(out@[x].0@)
                &&& out@[x].1@ == unsubscribe_frame(pre[out@[x].0@].kind, pre[out@[x].0@].condition)
            } by {
                assert(key_has_prefix(rv[x].0, prefix@));
                assert(out@[x].0@ == rv[x].0);
                assert(rv[x].1 == pre[rv[x].0]);
            }
            assert forall|i: int, j: int|
                0 <= i < j < out@.len() implies (#[trigger] out@[i]).0@ != (
            #[trigger] out@[j]).0@ by {
                assert(out@[i].0@ == rv[i].0);
                assert(out@[j].0@ == rv[j].0);
            }
            assert forall|k: Seq<char>|
                pre.contains_key(k) && key_has_prefix(k, channel@ + ":"@) implies exists|i: int|
                0 <= i < out@.len() && (#[trigger] out@[i]).0@ == k by {
                assert(key_has_prefix(k, prefix@) == key_has_prefix(k, channel@ + ":"@));
                let x = choose|x: int| 0 <= x < rv.len() && (#[trigger] rv[x]).0 == k;
                assert(out@[x].0@ == rv[x].0);
            }
        }
        out
    }
}

} // verus!
