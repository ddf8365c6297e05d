//! The demultiplexing engine of one connection: buffered line splitting,
//! routing of each line to the pending request table or the subscription
//! registry, and the request/response facade built on them.
//!
//! The surrounding program owns the socket; it hands every chunk of text
//! read from it to [`Session::handle_chunk`], writes the command lines the
//! `begin_*` and pub/sub methods hand back, and awaits the returned
//! receivers.

use vstd::prelude::*;
use vstd::string::*;
use crate::commands;
use crate::frame::{classify, classify_model, Frame, FrameModel};
use crate::ids::{gen_id, valid_id};
use crate::message_resolver::MessageResolver;
use crate::messaging::Messaging;
use crate::query::CacheQuery;
use crate::resolver::QueueResolver;
use crate::table::PendingTable;
use crate::text::{
    complete_lines, dec_chars, lemma_find_char_at, lemma_find_char_none, line_rest, push_char,
};
use crate::CacheError;

verus! {

/// Buffers raw text until complete `\n`-terminated lines are available.
pub struct LineBuffer {
    pending: String,
}

impl View for LineBuffer {
    type V = Seq<char>;

    closed spec fn view(&self) -> Seq<char> {
        self.pending@
    }
}

impl LineBuffer {
    /// An empty buffer.
    pub fn new() -> (r: Self)
        ensures
            r@ == Seq::<char>::empty(),
    {
        LineBuffer { pending: String::new() }
    }

    /// Appends a chunk of raw text and returns every line that is now
    /// complete, keeping what follows the last newline buffered.
    pub fn feed(&mut self, chunk: &str) -> (lines: Vec<String>)
        ensures
            lines@.map_values(|t: String| t@) == complete_lines(old(self)@ + chunk@),
            final(self)@ == line_rest(old(self)@ + chunk@),
    {
        let mut all = String::new();
        std::mem::swap(&mut all, &mut self.pending);
        all.append(chunk);
        let ghost t = all@;
        let text = all.as_str();
        let n = text.unicode_len();
        let mut lines: Vec<String> = Vec::new();
        let mut cur = String::new();
        let ghost mut j: int = 0;
        let mut i: usize = 0;
        proof {
            assert(t.skip(0) =~= t);
            assert(lines@.map_values(|x: String| x@) =~= Seq::<Seq<char>>::empty());
            assert(cur@ =~= t.subrange(0, 0));
        }
        while i < n
            invariant
                n == t.len(),
                text@ == t,
                0 <= j <= i <= n,
                cur@ == t.subrange(j, i as int),
                forall|k: int| j <= k < i ==> t[k] != '\n',
                complete_lines(t) == lines@.map_values(|x: String| x@) + complete_lines(
                    t.skip(j),
                ),
                line_rest(t) == line_rest(t.skip(j)),
            decreases n - i,
        {
            let c = text.get_char(i);
            if c == '\n' {
                proof {
                    assert(forall|m: int| 0 <= m < i - j ==> t.skip(j)[m] == t[j + m]);
                    assert(t.skip(j)[i - j] == t[i as int]);
                    lemma_find_char_at(t.skip(j), '\n', i - j);
                    assert(t.skip(j).take(i - j) =~= t.subrange(j, i as int));
                    assert(t.skip(j).skip(i - j + 1) =~= t.skip(i + 1));
                }
                let ghost old_lines = lines@;
                let ghost old_cur = cur@;
                lines.push(cur);
                cur = String::new();
                proof {
                    assert(lines@.map_values(|x: String| x@) =~= old_lines.map_values(
                        |x: String| x@,
                    ) + seq![old_cur]);
                    assert(complete_lines(t) =~= lines@.map_values(|x: String| x@)
                        + complete_lines(t.skip(i + 1)));
                    assert(cur@ =~= t.subrange(i + 1, i + 1));
                    j = i + 1;
                }
            } else {
                push_char(&mut cur, c);
                proof {
                    assert(cur@ =~= t.subrange(j, i + 1));
                }
            }
            i = i + 1;
        }
        proof {
            assert(t.skip(j) =~= t.subrange(j, n as int));
            assert(t.skip(j) == cur@);
            assert(forall|m: int| 0 <= m < t.skip(j).len() ==> t.skip(j)[m] != '\n');
            lemma_find_char_none(t.skip(j), '\n');
            assert(complete_lines(t.skip(j)) =~= Seq::<Seq<char>>::empty());
            assert(complete_lines(t) =~= lines@.map_values(|x: String| x@));
        }
        self.pending = cur;
        lines
    }
}

/// What routing one line does to the pending request table: a reply
/// consumes the slot registered under its id, and any other line leaves
/// the table as it was.
pub open spec fn step_pending(
    m: Map<Seq<char>, QueueResolver>,
    line: Seq<char>,
) -> Map<Seq<char>, QueueResolver> {
    match classify_model(line) {
        FrameModel::Reply { id, value, is_error } => m.remove(id),
        _ => m,
    }
}

/// Routing a run of lines, first line first.
pub open spec fn run_lines(
    m: Map<Seq<char>, QueueResolver>,
    lines: Seq<Seq<char>>,
) -> Map<Seq<char>, QueueResolver>
    decreases lines.len(),
{
    if lines.len() == 0 {
        m
    } else {
        run_lines(step_pending(m, lines[0]), lines.drop_first())
    }
}

/// Routing one more line continues a run.
pub proof fn lemma_run_lines_push(
    m: Map<Seq<char>, QueueResolver>,
    lines: Seq<Seq<char>>,
    line: Seq<char>,
)
    ensures
        run_lines(m, lines.push(line)) == step_pending(run_lines(m, lines), line),
    decreases lines.len(),
{
    let pl = lines.push(line);
    assert(pl.len() == lines.len() + 1);
    if lines.len() == 0 {
        assert(pl[0] == line);
        assert(pl.drop_first() =~= Seq::<Seq<char>>::empty());
        assert(run_lines(m, pl) == run_lines(step_pending(m, line), pl.drop_first()));
        assert(run_lines(step_pending(m, line), pl.drop_first()) == step_pending(m, line));
        assert(run_lines(m, lines) == m);
    } else {
        assert(pl[0] == lines[0]);
        assert(pl.drop_first() =~= lines.drop_first().push(line));
        lemma_run_lines_push(step_pending(m, lines[0]), lines.drop_first(), line);
        assert(run_lines(m, pl) == run_lines(step_pending(m, pl[0]), pl.drop_first()));
        assert(run_lines(m, lines) == run_lines(step_pending(m, lines[0]), lines.drop_first()));
    }
}

/// The per-connection engine: the pending request table, the subscription
/// registry, and the line buffer the dispatcher reads through.
pub struct Session {
    queue: PendingTable,
    messaging: Messaging,
    buffer: LineBuffer,
}

impl Session {
    /// The pending request table's contents.
    pub closed spec fn pending_view(self) -> Map<Seq<char>, QueueResolver> {
        self.queue@
    }

    /// The subscription registry's contents.
    pub closed spec fn subs_view(self) -> Map<Seq<char>, MessageResolver> {
        self.messaging@
    }

    /// The text read from the socket but not yet forming a complete line.
    pub closed spec fn buffered(self) -> Seq<char> {
        self.buffer@
    }

    /// A fresh engine with nothing pending, no subscriptions and an empty
    /// buffer.
    pub fn new() -> (s: Session)
        ensures
            s.pending_view() == Map::<Seq<char>, QueueResolver>::empty(),
            s.subs_view() == Map::<Seq<char>, MessageResolver>::empty(),
            s.buffered() == Seq::<char>::empty(),
    {
        Session { queue: PendingTable::new(), messaging: Messaging::new(), buffer: LineBuffer::new() }
    }

    /// Routes one complete line: a reply resolves and removes the slot
    /// registered under its id, a message event is delivered to its
    /// topic's subscriber, and a malformed line changes nothing, so the
    /// next valid line is routed as if it were not there.
    pub fn handle_line(&mut self, line: &str)
        ensures
            final(self).pending_view() == step_pending(old(self).pending_view(), line@),
            final(self).subs_view() == old(self).subs_view(),
            final(self).buffered() == old(self).buffered(),
    {
        match classify(line) {
            Frame::Reply(q) => {
                self.queue.resolve(q);
            },
            Frame::Message { topic, payload } => {
                self.messaging.trigger(topic.as_str(), payload.as_str());
            },
            Frame::Malformed => {},
        }
    }

    /// Feeds one chunk of text read from the socket and routes every line
    /// it completes, in order.
    pub fn handle_chunk(&mut self, chunk: &str)
        ensures
            final(self).pending_view() == run_lines(
                old(self).pending_view(),
                complete_lines(old(self).buffered() + chunk@),
            ),
            final(self).subs_view() == old(self).subs_view(),
            final(self).buffered() == line_rest(old(self).buffered() + chunk@),
    {
        let lines = self.buffer.feed(chunk);
        let ghost lmodels = lines@.map_values(|t: String| t@);
        let n = lines.len();
        let mut i: usize = 0;
        while i < n
            invariant
                n == lines@.len(),
                0 <= i <= n,
                lmodels == lines@.map_values(|t: String| t@),
                lmodels == complete_lines(old(self).buffered() + chunk@),
                self.pending_view() == run_lines(old(self).pending_view(), lmodels.take(i as int)),
                self.subs_view() == old(self).subs_view(),
                self.buffered() == line_rest(old(self).buffered() + chunk@),
            decreases n - i,
        {
            let ghost before = self.pending_view();
            let line_ref: &String = &lines[i];
            proof {
                assert(lmodels[i as int] == lines@[i as int]@);
            }
            self.handle_line(line_ref.as_str());
            proof {
                lemma_run_lines_push(old(self).pending_view(), lmodels.take(i as int), lmodels[
                    i as int]);
                assert(lmodels.take(i + 1) =~= lmodels.take(i as int).push(lmodels[i as int]));
            }
            i = i + 1;
        }
        proof {
            assert(lmodels.take(n as int) =~= lmodels);
        }
    }

    /// Begins a `GET`: generates a fresh correlation id, registers its
    /// slot, and returns the id, the command line to write, and the
    /// receiver the caller awaits.  The slot is registered before the
    /// command line is handed back, so no reply can arrive ahead of it.
    pub fn begin_get(&mut self, key: &str) -> (r: (
        String,
        String,
        tokio::sync::oneshot::Receiver<CacheQuery>,
    ))
        ensures
            valid_id(r.0@),
            r.1@ == r.0@ + " GET "@ + key@ + "\n"@,
            exists|q: QueueResolver|
                final(self).pending_view() == old(self).pending_view().insert(r.0@, q),
            final(self).subs_view() == old(self).subs_view(),
            final(self).buffered() == old(self).buffered(),
    {
        let id = gen_id();
        let cmd = commands::get(id.as_str(), key);
        let rx = self.queue.enqueue(id.as_str());
        proof {
            let w = choose|q: QueueResolver| self.queue@ == old(self).queue@.insert(id@, q);
            assert(self.pending_view() == old(self).pending_view().insert(id@, w));
        }
        (id, cmd, rx)
    }

    /// Begins a `SET`, as [`Session::begin_get`] does for `GET`.
    pub fn begin_set(&mut self, key: &str, value: &str, ttl: Option<u64>) -> (r: (
        String,
        String,
        tokio::sync::oneshot::Receiver<CacheQuery>,
    ))
        ensures
            valid_id(r.0@),
            match ttl {
                None => r.1@ == r.0@ + " SET "@ + key@ + " "@ + value@ + "\n"@,
                Some(t) => r.1@ == r.0@ + " SET "@ + key@ + " "@ + value@ + " "@ + dec_chars(
                    t as nat,
                ) + "\n"@,
            },
            exists|q: QueueResolver|
                final(self).pending_view() == old(self).pending_view().insert(r.0@, q),
            final(self).subs_view() == old(self).subs_view(),
            final(self).buffered() == old(self).buffered(),
    {
        let id = gen_id();
        let cmd = commands::set(id.as_str(), key, value, ttl);
        let rx = self.queue.enqueue(id.as_str());
        proof {
            let w = choose|q: QueueResolver| self.queue@ == old(self).queue@.insert(id@, q);
            assert(self.pending_view() == old(self).pending_view().insert(id@, w));
        }
        (id, cmd, rx)
    }

    /// Begins a `DELETE`, as [`Session::begin_get`] does for `GET`.
    pub fn begin_del(&mut self, key: &str) -> (r: (
        String,
        String,
        tokio::sync::oneshot::Receiver<CacheQuery>,
    ))
        ensures
            valid_id(r.0@),
            r.1@ == r.0@ + " DELETE "@ + key@ + "\n"@,
            exists|q: QueueResolver|
                final(self).pending_view() == old(self).pending_view().insert(r.0@, q),
            final(self).subs_view() == old(self).subs_view(),
            final(self).buffered() == old(self).buffered(),
    {
        let id = gen_id();
        let cmd = commands::del(id.as_str(), key);
        let rx = self.queue.enqueue(id.as_str());
        proof {
            let w = choose|q: QueueResolver| self.queue@ == old(self).queue@.insert(id@, q);
            assert(self.pending_view() == old(self).pending_view().insert(id@, w));
        }
        (id, cmd, rx)
    }

    /// Registers a subscription for the topic and returns the correlation
    /// id, the `SUBSCRIBE` command line to write, and the subscriber's
    /// stream.  The registration is complete before the command line is
    /// handed back, so no event can arrive ahead of it.
    pub fn subscribe(&mut self, topic: &str) -> (r: (
        String,
        String,
        tokio::sync::mpsc::UnboundedReceiver<String>,
    ))
        ensures
            valid_id(r.0@),
            r.1@ == r.0@ + " SUBSCRIBE "@ + topic@ + "\n"@,
            exists|m: MessageResolver|
                final(self).subs_view() == old(self).subs_view().insert(topic@, m),
            final(self).pending_view() == old(self).pending_view(),
            final(self).buffered() == old(self).buffered(),
    {
        let r = self.messaging.subscribe(topic);
        proof {
            let w = choose|m: MessageResolver|
                self.messaging@ == old(self).messaging@.insert(topic@, m);
            assert(self.subs_view() == old(self).subs_view().insert(topic@, w));
        }
        r
    }

    /// Removes the topic's subscription and returns the correlation id
    /// and the `UNSUBSCRIBE` command line to write.  Later message events
    /// for the topic deliver nothing.
    pub fn unsubscribe(&mut self, topic: &str) -> (r: (String, String))
        ensures
            valid_id(r.0@),
            r.1@ == r.0@ + " UNSUBSCRIBE "@ + topic@ + "\n"@,
            final(self).subs_view() == old(self).subs_view().remove(topic@),
            final(self).pending_view() == old(self).pending_view(),
            final(self).buffered() == old(self).buffered(),
    {
        self.messaging.unsubscribe(topic)
    }

    /// Returns the correlation id and the `PUBLISH` command line to
    /// write; publishing registers nothing.
    pub fn publish(&self, topic: &str, payload: &str) -> (r: (String, String))
        ensures
            valid_id(r.0@),
            r.1@ == r.0@ + " PUBLISH "@ + topic@ + " "@ + payload@ + "\n"@,
    {
        self.messaging.publish(topic, payload)
    }

    /// Reports the loss of the connection: every outstanding slot
    /// receives an error reply carrying its own id, and every
    /// subscriber's stream is closed, so no caller waits forever on a
    /// connection that is gone.
    pub fn connection_lost(&mut self)
        ensures
            final(self).pending_view() == Map::<Seq<char>, QueueResolver>::empty(),
            final(self).subs_view() == Map::<Seq<char>, MessageResolver>::empty(),
            final(self).buffered() == old(self).buffered(),
    {
        self.queue.fail_all();
        self.messaging.close_all();
    }
}

/// Reads a `GET` reply as the caller sees it: an `ERROR` reply surfaces
/// as [`CacheError::RequestFailed`], never as success, and a success
/// carries the reply's value, which is absent when the key was unset.
pub fn finish_get(result: CacheQuery) -> (r: Result<Option<String>, CacheError>)
    ensures
        match r {
            Ok(v) => !result.is_error && v == result.value,
            Err(e) => result.is_error && e == CacheError::RequestFailed,
        },
{
    if result.is_error {
        Err(CacheError::RequestFailed)
    } else {
        Ok(result.value)
    }
}

/// Reads a `SET` or `DELETE` reply as the caller sees it: an `ERROR`
/// reply surfaces as [`CacheError::RequestFailed`], never as success.
pub fn finish_unit(result: CacheQuery) -> (r: Result<(), CacheError>)
    ensures
        match r {
            Ok(_) => !result.is_error,
            Err(e) => result.is_error && e == CacheError::RequestFailed,
        },
{
    if result.is_error {
        Err(CacheError::RequestFailed)
    } else {
        Ok(())
    }
}

} // verus!
