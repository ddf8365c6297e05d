//! The subscription registry and the pub/sub side of the client: one
//! delivery stream per topic, fed by the dispatcher when an unsolicited
//! `MESSAGE` line arrives.

use vstd::prelude::*;
use vstd::string::*;
use crate::commands;
use crate::idmap::IdMap;
use crate::ids::{gen_id, valid_id};
use crate::message_resolver::MessageResolver;
use crate::query::reply_tokens;

verus! {

/// Whether a line is an unsolicited message event, recognized purely by
/// its `MESSAGE` prefix.
pub open spec fn is_message_line(s: Seq<char>) -> bool {
    s.len() >= 7 && s.subrange(0, 7) == "MESSAGE"@
}

/// The topic and payload a message line carries: tokens two and three,
/// when there are at least three.
pub open spec fn message_parts(s: Seq<char>) -> Option<(Seq<char>, Seq<char>)> {
    let toks = reply_tokens(s);
    if toks.len() >= 3 {
        Some((toks[1], toks[2]))
    } else {
        None
    }
}

/// The registry of active subscriptions: at most one delivery stream per
/// topic; subscribing again to a topic replaces its stream.
pub struct Messaging {
    subscription: IdMap<MessageResolver>,
}

impl View for Messaging {
    type V = Map<Seq<char>, MessageResolver>;

    closed spec fn view(&self) -> Map<Seq<char>, MessageResolver> {
        self.subscription@
    }
}

impl Messaging {
    /// Recognizes an unsolicited message event by its `MESSAGE` prefix.
    pub fn is_messaging_event(msg: &str) -> (r: bool)
        ensures
            r == is_message_line(msg@),
    {
        let n = msg.unicode_len();
        if n < 7 {
            proof {
                reveal_strlit("MESSAGE");
            }
            return false;
        }
        let r = msg.get_char(0) == 'M' && msg.get_char(1) == 'E' && msg.get_char(2) == 'S'
            && msg.get_char(3) == 'S' && msg.get_char(4) == 'A' && msg.get_char(5) == 'G'
            && msg.get_char(6) == 'E';
        proof {
            reveal_strlit("MESSAGE");
            if r {
                assert(msg@.subrange(0, 7) =~= "MESSAGE"@);
            } else if msg@.subrange(0, 7) == "MESSAGE"@ {
                assert(forall|i: int| 0 <= i < 7 ==> msg@.subrange(0, 7)[i] == msg@[i]);
                assert(msg@[0] == 'M' && msg@[1] == 'E' && msg@[2] == 'S' && msg@[3] == 'S'
                    && msg@[4] == 'A' && msg@[5] == 'G' && msg@[6] == 'E');
                assert(false);
            }
        }
        r
    }

    /// Reads the topic and payload out of a message line; a line with
    /// fewer than three tokens has none.
    pub fn parse_body(msg: &str) -> (r: Option<(String, String)>)
        ensures
            match r {
                Some(p) => message_parts(msg@) == Some((p.0@, p.1@)),
                None => message_parts(msg@) is None,
            },
    {
        let stripped = crate::text::strip_nl(msg);
        let mut parts = crate::text::tokenize(stripped.as_str());
        proof {
            assert(parts@.map_values(|t: String| t@) == reply_tokens(msg@));
        }
        if parts.len() < 3 {
            return None;
        }
        proof {
            assert(parts@.map_values(|t: String| t@)[1] == parts@[1]@);
            assert(parts@.map_values(|t: String| t@)[2] == parts@[2]@);
        }
        let payload = parts.remove(2);
        let topic = parts.remove(1);
        Some((topic, payload))
    }

    /// An empty registry.
    pub fn new() -> (r: Self)
        ensures
            r@ == Map::<Seq<char>, MessageResolver>::empty(),
    {
        Messaging { subscription: IdMap::new() }
    }

    /// Delivers a payload to the topic's current stream; a topic without
    /// a subscription is a silent no-op.  Returns whether a subscription
    /// was there.
    pub fn trigger(&self, topic: &str, message: &str) -> (found: bool)
        ensures
            found == self@.contains_key(topic@),
    {
        match self.subscription.get(topic) {
            Some(resolver) => {
                resolver.resolve(message.to_owned());
                true
            },
            None => false,
        }
    }

    /// Builds the `PUBLISH` command line under a fresh correlation id.
    pub fn publish(&self, topic: &str, message: &str) -> (r: (String, String))
        ensures
            valid_id(r.0@),
            r.1@ == r.0@ + " PUBLISH "@ + topic@ + " "@ + message@ + "\n"@,
    {
        let id = gen_id();
        let cmd = commands::publish(id.as_str(), topic, message);
        (id, cmd)
    }

    /// Removes the topic's subscription, after which message events for
    /// it are silent no-ops, and builds the `UNSUBSCRIBE` command line
    /// under a fresh correlation id.
    pub fn unsubscribe(&mut self, topic: &str) -> (r: (String, String))
        ensures
            final(self)@ == old(self)@.remove(topic@),
            valid_id(r.0@),
            r.1@ == r.0@ + " UNSUBSCRIBE "@ + topic@ + "\n"@,
    {
        let removed = self.subscription.remove(topic);
        proof {
            if removed is None {
                assert(old(self)@.remove(topic@) =~= old(self)@);
            }
        }
        let id = gen_id();
        let cmd = commands::unsubscribe(id.as_str(), topic);
        (id, cmd)
    }

    /// Registers a fresh delivery stream for the topic, replacing and
    /// thereby closing any stream already registered for it, and builds
    /// the `SUBSCRIBE` command line under a fresh correlation id.  The
    /// registration is complete before the command line is handed back to
    /// be written, so no event can arrive ahead of it.
    pub fn subscribe(&mut self, topic: &str) -> (r: (
        String,
        String,
        tokio::sync::mpsc::UnboundedReceiver<String>,
    ))
        ensures
            exists|m: MessageResolver| final(self)@ == old(self)@.insert(topic@, m),
            valid_id(r.0@),
            r.1@ == r.0@ + " SUBSCRIBE "@ + topic@ + "\n"@,
    {
        let (tx, rx) = tokio::sync::mpsc::unbounded_channel();
        let resolver = MessageResolver::new(tx);
        let ghost g = resolver;
        self.subscription.insert(topic.to_owned(), resolver);
        let id = gen_id();
        let cmd = commands::subscribe(id.as_str(), topic);
        proof {
            assert(final(self)@ == old(self)@.insert(topic@, g));
        }
        (id, cmd, rx)
    }

    /// Drops every subscription, closing each subscriber's stream so
    /// that none waits on a connection that is gone.
    pub fn close_all(&mut self)
        ensures
            final(self)@ == Map::<Seq<char>, MessageResolver>::empty(),
    {
        loop
            invariant
                true,
            ensures
                self@ == Map::<Seq<char>, MessageResolver>::empty(),
            decreases self.subscription.spec_len(),
        {
            match self.subscription.pop() {
                Some(_entry) => {
                },
                None => {
                    break;
                },
            }
        }
    }
}

} // verus!
