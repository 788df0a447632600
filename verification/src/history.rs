//! Short-term memory: a bounded ring of recent sensor experiences.
//!
//! Purely diagnostic — nothing feeds back from here into control. The
//! newest snapshot sits at the end; once the buffer holds
//! [`HISTORY_SIZE`] entries the oldest is dropped on each push.

use vstd::prelude::*;
use crate::fixed::Fix;
use crate::params::HISTORY_SIZE;

verus! {

/// Ghost model of a [`SensorSnapshot`].
pub struct SensorSnapshotV {
    pub val_l: int,
    pub val_r: int,
    pub x: int,
    pub y: int,
    pub energy: int,
    pub tick: u64,
}

/// One recorded experience: both readings, pose, energy and the tick.
#[derive(Clone, Copy, PartialEq, Eq, Structural, Debug)]
pub struct SensorSnapshot {
    pub val_l: Fix,
    pub val_r: Fix,
    pub x: Fix,
    pub y: Fix,
    pub energy: Fix,
    pub tick: u64,
}

impl View for SensorSnapshot {
    type V = SensorSnapshotV;

    open spec fn view(&self) -> SensorSnapshotV {
        SensorSnapshotV {
            val_l: self.val_l@,
            val_r: self.val_r@,
            x: self.x@,
            y: self.y@,
            energy: self.energy@,
            tick: self.tick,
        }
    }
}

/// The history after one push: the snapshot appended, the oldest entry
/// dropped once the buffer is full.
pub open spec fn history_push_s(h: Seq<SensorSnapshotV>, s: SensorSnapshotV) -> Seq<
    SensorSnapshotV,
> {
    if h.len() < HISTORY_SIZE as nat {
        h.push(s)
    } else {
        h.subrange(1, h.len() as int).push(s)
    }
}

/// A well-formed history never exceeds the ring capacity.
pub open spec fn history_wf(h: Seq<SensorSnapshotV>) -> bool {
    h.len() <= HISTORY_SIZE as nat
}

/// Bounded ring buffer of recent sensor experiences (newest last).
#[derive(Clone, Debug)]
pub struct SensorHistory {
    entries: Vec<SensorSnapshot>,
}

impl View for SensorHistory {
    type V = Seq<SensorSnapshotV>;

    closed spec fn view(&self) -> Seq<SensorSnapshotV> {
        self.entries@.map_values(|s: SensorSnapshot| s@)
    }
}

impl SensorHistory {
    /// An empty history.
    pub fn new() -> (r: SensorHistory)
        ensures
            r@ == Seq::<SensorSnapshotV>::empty(),
            history_wf(r@),
    {
        let r = SensorHistory { entries: Vec::new() };
        proof {
            assert(r@ =~= Seq::<SensorSnapshotV>::empty());
        }
        r
    }

    /// The number of stored snapshots (at most [`HISTORY_SIZE`]).
    pub fn len(&self) -> (r: usize)
        requires
            history_wf(self@),
        ensures
            r as nat == self@.len(),
            r <= HISTORY_SIZE,
    {
        self.entries.len()
    }

    /// Record a snapshot, dropping the oldest entry once full.
    pub fn push(&mut self, s: SensorSnapshot)
        requires
            history_wf(old(self)@),
        ensures
            final(self)@ == history_push_s(old(self)@, s@),
            history_wf(final(self)@),
    {
        if self.entries.len() == HISTORY_SIZE {
            self.entries.remove(0);
        }
        self.entries.push(s);
        proof {
            assert(self@ =~= history_push_s(old(self)@, s@));
        }
    }

    /// The stored snapshots, oldest first.
    pub fn snapshots(&self) -> (r: Vec<SensorSnapshot>)
        ensures
            r@.map_values(|s: SensorSnapshot| s@) == self@,
    {
        let mut out: Vec<SensorSnapshot> = Vec::new();
        let mut i: usize = 0;
        while i < self.entries.len()
            invariant
                i <= self.entries@.len(),
                out@.len() == i as nat,
                forall|j: int| 0 <= j < i ==> out@[j] == self.entries@[j],
            decreases self.entries@.len() - i,
        {
            out.push(self.entries[i]);
            i = i + 1;
        }
        proof {
            assert(out@.map_values(|s: SensorSnapshot| s@) =~= self@);
        }
        out
    }
}

} // verus!
