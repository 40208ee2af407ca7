use vstd::prelude::*;

use crate::ids::GuildId;
use crate::per_guild_data::{dequeue_transition, enqueue_transition, Store};
use crate::track::TrackDescriptor;

verus! {

/// Isolation between guilds: two enqueues on distinct guilds, in either
/// interleaving the directory serializes them in, leave each guild with
/// exactly its own tracks appended — neither queue sees the other's contents,
/// and every third guild is untouched.
pub proof fn lemma_enqueue_isolation(
    s0: Store,
    s1: Store,
    s2: Store,
    g: GuildId,
    h: GuildId,
    tg: Seq<TrackDescriptor>,
    th: Seq<TrackDescriptor>,
)
    requires
        g != h,
        enqueue_transition(s0, s1, g, tg),
        enqueue_transition(s1, s2, h, th),
    ensures
        s2.spec_queue(g) == s0.spec_queue(g) + tg,
        s2.spec_queue(h) == s0.spec_queue(h) + th,
        forall|k: GuildId| k != g && k != h ==> (#[trigger] s2.spec_queue(k)) == s0.spec_queue(k),
        forall|k: GuildId| (#[trigger] s2.spec_reply(k)) == s0.spec_reply(k),
{
    assert forall|k: GuildId| (#[trigger] s2.spec_reply(k)) == s0.spec_reply(k) by {
        if k != g {
            assert(s1.spec_reply(k) == s0.spec_reply(k));
        }
        if k != h {
            assert(s2.spec_reply(k) == s1.spec_reply(k));
        }
    }
}

/// FIFO ordering: enqueueing `t1`, `t2`, `t3` on one guild, starting from an
/// empty queue and with no interleaved dequeues, makes the next three
/// dequeues return `t1`, then `t2`, then `t3`.
pub proof fn lemma_fifo_order(
    s0: Store,
    s1: Store,
    s2: Store,
    s3: Store,
    s4: Store,
    s5: Store,
    s6: Store,
    g: GuildId,
    t1: TrackDescriptor,
    t2: TrackDescriptor,
    t3: TrackDescriptor,
    r1: Option<TrackDescriptor>,
    r2: Option<TrackDescriptor>,
    r3: Option<TrackDescriptor>,
)
    requires
        s0.spec_queue(g).len() == 0,
        enqueue_transition(s0, s1, g, seq![t1]),
        enqueue_transition(s1, s2, g, seq![t2]),
        enqueue_transition(s2, s3, g, seq![t3]),
        dequeue_transition(s3, s4, g, r1),
        dequeue_transition(s4, s5, g, r2),
        dequeue_transition(s5, s6, g, r3),
    ensures
        r1 == Some(t1),
        r2 == Some(t2),
        r3 == Some(t3),
        s6.spec_queue(g).len() == 0,
{
    assert(s3.spec_queue(g) =~= seq![t1, t2, t3]);
    assert(s4.spec_queue(g) =~= seq![t2, t3]);
    assert(s5.spec_queue(g) =~= seq![t3]);
}

} // verus!
