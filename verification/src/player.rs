use vstd::prelude::*;

use crate::track::TrackDescriptor;

verus! {

/// The per-guild play queue: an insertion-ordered sequence of tracks awaiting
/// playback. The discipline is first-in, first-out, so playback order equals
/// the enqueue order a guild observed. No bound on size, no deduplication.
#[derive(Debug)]
pub struct TrackManager {
    track_queue: Vec<TrackDescriptor>,
}

impl View for TrackManager {
    type V = Seq<TrackDescriptor>;

    closed spec fn view(&self) -> Seq<TrackDescriptor> {
        self.track_queue@
    }
}

impl TrackManager {
    /// An empty queue.
    pub fn new() -> (r: TrackManager)
        ensures
            r@ == Seq::<TrackDescriptor>::empty(),
    {
        TrackManager { track_queue: Vec::new() }
    }

    /// Appends the given tracks at the tail, preserving their order.
    pub fn enqueue(&mut self, tracks: Vec<TrackDescriptor>) -> (r: ())
        ensures
            final(self)@ == old(self)@ + tracks@,
    {
        let mut rest = tracks;
        let ghost all = rest@;
        let ghost start = self@;
        while rest.len() > 0
            invariant
                self@ + rest@ == start + all,
            decreases rest@.len(),
        {
            let ghost before = self@;
            let ghost pending = rest@;
            let t = rest.remove(0);
            self.track_queue.push(t);
            proof {
                assert(before + seq![pending[0]] + pending.remove(0) =~= before + pending);
            }
        }
        proof {
            assert(self@ + rest@ =~= self@);
        }
    }

    /// Removes and returns the track enqueued earliest, or `None` when the
    /// queue is empty.
    pub fn next_track(&mut self) -> (r: Option<TrackDescriptor>)
        ensures
            old(self)@.len() == 0 ==> r is None && final(self)@ == old(self)@,
            old(self)@.len() > 0 ==> r == Some(old(self)@[0])
                && final(self)@ == old(self)@.drop_first(),
    {
        if self.track_queue.len() == 0 {
            None
        } else {
            let t = self.track_queue.remove(0);
            proof {
                assert(old(self)@.remove(0) =~= old(self)@.drop_first());
            }
            Some(t)
        }
    }
}

} // verus!
