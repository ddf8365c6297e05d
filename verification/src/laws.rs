//! The correlation guarantees of the engine, stated and proved over the
//! models its contracts use.

use vstd::prelude::*;
use crate::frame::{classify_model, FrameModel};
use crate::message_resolver::MessageResolver;
use crate::resolver::QueueResolver;
use crate::session::{run_lines, step_pending};

verus! {

/// A reply consumes exactly the slot registered under its own id: that
/// slot is gone afterwards, and the slot of every other id is exactly the
/// one that was registered, so no caller can receive a result meant for a
/// different id.
pub proof fn lemma_reply_routes_only_its_own_id(
    m: Map<Seq<char>, QueueResolver>,
    line: Seq<char>,
    own: Seq<char>,
    other: Seq<char>,
)
    requires
        classify_model(line) matches FrameModel::Reply { id, value, is_error } && id == own,
        own != other,
        m.contains_key(own),
        m.contains_key(other),
    ensures
        step_pending(m, line) == m.remove(own),
        !step_pending(m, line).contains_key(own),
        step_pending(m, line).contains_key(other),
        step_pending(m, line)[other] == m[other],
{
}

/// Replies carrying distinct ids resolve independently: whichever order
/// the server answers in, each reply consumes its own slot and the final
/// table is the same.
pub proof fn lemma_distinct_replies_commute(
    m: Map<Seq<char>, QueueResolver>,
    line1: Seq<char>,
    line2: Seq<char>,
    id1: Seq<char>,
    id2: Seq<char>,
)
    requires
        classify_model(line1) matches FrameModel::Reply { id, value, is_error } && id == id1,
        classify_model(line2) matches FrameModel::Reply { id, value, is_error } && id == id2,
        id1 != id2,
    ensures
        run_lines(m, seq![line1, line2]) == run_lines(m, seq![line2, line1]),
        !run_lines(m, seq![line1, line2]).contains_key(id1),
        !run_lines(m, seq![line1, line2]).contains_key(id2),
{
    let a = seq![line1, line2];
    let b = seq![line2, line1];
    assert(a.drop_first() =~= seq![line2]);
    assert(b.drop_first() =~= seq![line1]);
    assert(seq![line2].drop_first() =~= Seq::<Seq<char>>::empty());
    assert(seq![line1].drop_first() =~= Seq::<Seq<char>>::empty());
    assert(a[0] == line1 && b[0] == line2 && seq![line2][0] == line2 && seq![line1][0] == line1);
    assert(step_pending(m, line1) == m.remove(id1));
    assert(step_pending(m, line2) == m.remove(id2));
    assert(run_lines(m, a) == run_lines(step_pending(m, line1), seq![line2]));
    assert(run_lines(m.remove(id1), seq![line2]) == run_lines(
        step_pending(m.remove(id1), line2),
        Seq::<Seq<char>>::empty(),
    ));
    assert(run_lines(m, a) == m.remove(id1).remove(id2));
    assert(run_lines(m, b) == run_lines(step_pending(m, line2), seq![line1]));
    assert(run_lines(m.remove(id2), seq![line1]) == run_lines(
        step_pending(m.remove(id2), line1),
        Seq::<Seq<char>>::empty(),
    ));
    assert(run_lines(m, b) == m.remove(id2).remove(id1));
    assert(m.remove(id1).remove(id2) =~= m.remove(id2).remove(id1));
}

/// A malformed line between two valid lines changes nothing: routing a
/// run that starts with it routes exactly as the run without it, so the
/// next valid reply still reaches its own slot.
pub proof fn lemma_malformed_line_is_skipped(
    m: Map<Seq<char>, QueueResolver>,
    bad: Seq<char>,
    lines: Seq<Seq<char>>,
)
    requires
        classify_model(bad) is Malformed,
    ensures
        run_lines(m, seq![bad] + lines) == run_lines(m, lines),
{
    let s = seq![bad] + lines;
    assert(s[0] == bad);
    assert(s.drop_first() =~= lines);
    assert(step_pending(m, bad) == m);
}

/// After subscribing, the topic's registered stream is exactly the fresh
/// one, so a message event for the topic is delivered to it; after
/// unsubscribing, the topic has no stream, so a message event for it is
/// delivered to none.
pub proof fn lemma_subscription_governs_delivery(
    subs: Map<Seq<char>, MessageResolver>,
    topic: Seq<char>,
    fresh: MessageResolver,
)
    ensures
        subs.insert(topic, fresh).contains_key(topic),
        subs.insert(topic, fresh)[topic] == fresh,
        !subs.remove(topic).contains_key(topic),
{
}

} // verus!
