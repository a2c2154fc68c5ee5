//! The edge-batching decoder: turns a live stream of hardware edge events
//! into discrete pulse bursts, delivered once a quiet period shows that a
//! transmission has ended. The caller owns the event loop; this type holds
//! the state and makes every decision.

use vstd::prelude::*;
use crate::signal::{Signal, spec_classify};

verus! {

/// Quiet period after the last processed edge, in nanoseconds, after which
/// a pending burst is considered complete and is flushed.
pub const IDLE_FLUSH_NS: u64 = 100_000_000;

/// The pulse recorded for a falling edge at `timestamp`, when the previous
/// edge was at `last`: the classified interval between the two.
pub open spec fn spec_edge_pulse(last: u64, timestamp: u64) -> Signal
    recommends
        last <= timestamp,
{
    Signal {
        signal_type: spec_classify((timestamp - last) as u64),
        duration: (timestamp - last) as u64,
    }
}

/// Accumulator over a live edge stream. `pending` holds the pulses decoded
/// since the last flush; `last_edge_time` is the timestamp of the most
/// recent processed edge; `edge_count` counts processed edges (saturating),
/// so that the very first edge, which has no predecessor, yields no pulse.
pub struct EdgeDecoder {
    pub last_edge_time: u64,
    pub edge_count: u64,
    pub pending: Vec<Signal>,
}

impl EdgeDecoder {
    /// A fresh decoder: nothing pending, no edge seen.
    pub fn new() -> (d: EdgeDecoder)
        ensures
            d.last_edge_time == 0,
            d.edge_count == 0,
            d.pending@ == Seq::<Signal>::empty(),
    {
        EdgeDecoder { last_edge_time: 0, edge_count: 0, pending: Vec::new() }
    }

    /// Process one hardware edge. Timestamps must be monotonically
    /// non-decreasing. A falling edge that is not the very first edge seen
    /// classifies the interval since the previous edge and appends the
    /// pulse; a rising edge, or the first edge, only marks the time.
    pub fn on_edge(&mut self, falling: bool, timestamp: u64)
        requires
            old(self).edge_count > 0 ==> old(self).last_edge_time <= timestamp,
        ensures
            final(self).last_edge_time == timestamp,
            final(self).edge_count == (if old(self).edge_count < u64::MAX {
                old(self).edge_count + 1
            } else {
                old(self).edge_count as int
            }),
            falling && old(self).edge_count > 0 ==> final(self).pending@ == old(
                self,
            ).pending@.push(spec_edge_pulse(old(self).last_edge_time, timestamp)),
            !(falling && old(self).edge_count > 0) ==> final(self).pending@ == old(self).pending@,
    {
        if falling && self.edge_count > 0 {
            let interval = timestamp - self.last_edge_time;
            let pulse = Signal::decode(interval);
            self.pending.push(pulse);
        }
        if self.edge_count < u64::MAX {
            self.edge_count = self.edge_count + 1;
        }
        self.last_edge_time = timestamp;
    }

    /// Periodic idle check at time `now` (same clock as the edge
    /// timestamps). When pulses are pending and more than the quiet period
    /// has passed since the last edge, the accumulated burst is handed out
    /// and the accumulator is cleared; otherwise nothing changes.
    pub fn on_idle_check(&mut self, now: u64) -> (flushed: Option<Vec<Signal>>)
        ensures
            old(self).pending@.len() > 0 && now > old(self).last_edge_time + IDLE_FLUSH_NS ==> {
                &&& flushed is Some
                &&& flushed->Some_0@ == old(self).pending@
                &&& final(self).pending@ == Seq::<Signal>::empty()
            },
            !(old(self).pending@.len() > 0 && now > old(self).last_edge_time + IDLE_FLUSH_NS) ==> {
                &&& flushed is None
                &&& final(self).pending@ == old(self).pending@
            },
            final(self).last_edge_time == old(self).last_edge_time,
            final(self).edge_count == old(self).edge_count,
    {
        if self.pending.len() > 0 && now > self.last_edge_time && now - self.last_edge_time
            > IDLE_FLUSH_NS {
            let mut burst: Vec<Signal> = Vec::new();
            core::mem::swap(&mut burst, &mut self.pending);
            Some(burst)
        } else {
            None
        }
    }
}

} // verus!
