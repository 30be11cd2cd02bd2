//! The frame buffer slot shared between the capture worker and the
//! render loop: the most recently published frame plus a rolling history
//! of the last ten inter-frame durations, from which a smoothed frame
//! rate is computed. The worker publishes, the render loop snapshots;
//! the caller guards the slot for exclusive access, so a reader never
//! observes a partially updated frame.

use vstd::prelude::*;

use crate::frame::Frame;

verus! {

use vstd::pervasive::VecAdditionalExecFns;

/// The sum of a sequence of durations, in milliseconds.
pub open spec fn sum_of(s: Seq<u32>) -> int
    decreases s.len(),
{
    if s.len() == 0 {
        0
    } else {
        sum_of(s.drop_last()) + s.last()
    }
}

/// The smoothed frame rate a ten-entry history yields: the rounded
/// reciprocal of the mean duration. With the mean in seconds equal to
/// `total / 10000` for `total` in milliseconds, the reciprocal is
/// `10000 / total`, rounded to the nearest integer; the rate is defined
/// as zero when the mean duration is zero.
pub open spec fn spec_rate(ring: Seq<u32>) -> int {
    let total = sum_of(ring);
    if total == 0 {
        0
    } else {
        (20000 + total) / (2 * total)
    }
}

/// The duration ring after one publish: the oldest entry is dropped and
/// the newest appended.
pub open spec fn published_ring(ring: Seq<u32>, delta_ms: u32) -> Seq<u32> {
    ring.subrange(1, ring.len() as int).push(delta_ms)
}

/// The slot's frame and duration ring after a whole sequence of
/// publishes, each a frame together with its inter-frame duration.
pub open spec fn slot_after(frame0: Frame, ring0: Seq<u32>, pubs: Seq<(Frame, u32)>) -> (
    Frame,
    Seq<u32>,
)
    decreases pubs.len(),
{
    if pubs.len() == 0 {
        (frame0, ring0)
    } else {
        let prev = slot_after(frame0, ring0, pubs.drop_last());
        (pubs.last().0, published_ring(prev.1, pubs.last().1))
    }
}

/// After any nonempty sequence of publishes, the frame held by the slot
/// is the frame of the last publish: under the slot's single-writer
/// exclusive access no update is lost and none is reordered.
pub proof fn lemma_snapshot_sees_latest_publish(
    frame0: Frame,
    ring0: Seq<u32>,
    pubs: Seq<(Frame, u32)>,
)
    requires
        pubs.len() > 0,
    ensures
        slot_after(frame0, ring0, pubs).0 == pubs.last().0,
{
}

/// The sum of a duration ring is nonnegative and at most one maximal
/// duration per entry.
proof fn lemma_sum_bound(s: Seq<u32>)
    ensures
        0 <= sum_of(s),
        sum_of(s) <= s.len() * 0xffffffff,
    decreases s.len(),
{
    if s.len() > 0 {
        lemma_sum_bound(s.drop_last());
    }
}

/// The most recent decoded frame plus the rolling latency history.
pub struct WebcamFrame {
    pub frame: Frame,
    pub delta_times: Vec<u32>,
}

impl WebcamFrame {
    /// The duration ring always holds exactly ten entries.
    pub open spec fn wf(self) -> bool {
        self.delta_times@.len() == 10
    }

    /// A fresh slot holding the given placeholder frame and an all-zero
    /// duration history.
    pub fn new(frame: Frame) -> (r: WebcamFrame)
        ensures
            r.wf(),
            r.frame == frame,
            r.delta_times@.len() == 10,
            forall|j: int| 0 <= j < 10 ==> r.delta_times@[j] == 0u32,
    {
        let mut delta_times: Vec<u32> = Vec::new();
        let mut i: usize = 0;
        while i < 10
            invariant
                i <= 10,
                delta_times@.len() == i,
                forall|j: int| 0 <= j < i ==> delta_times@[j] == 0u32,
            decreases 10 - i,
        {
            delta_times.push(0);
            i += 1;
        }
        WebcamFrame { frame, delta_times }
    }

    /// Replaces the current frame and shifts the duration ring: the
    /// oldest duration is dropped, the newest appended.
    pub fn publish(&mut self, frame: Frame, delta_ms: u32)
        requires
            old(self).wf(),
        ensures
            final(self).wf(),
            final(self).frame == frame,
            final(self).delta_times@ == published_ring(old(self).delta_times@, delta_ms),
    {
        self.frame = frame;
        let mut i: usize = 0;
        while i < 9
            invariant
                old(self).wf(),
                self.frame == frame,
                self.delta_times@.len() == 10,
                i <= 9,
                forall|j: int| 0 <= j < i ==> self.delta_times@[j] == old(self).delta_times@[j + 1],
                forall|j: int| i <= j < 10 ==> self.delta_times@[j] == old(self).delta_times@[j],
            decreases 9 - i,
        {
            let v = self.delta_times[i + 1];
            self.delta_times.set(i, v);
            i += 1;
        }
        self.delta_times.set(9, delta_ms);
        proof {
            assert(self.delta_times@ =~= published_ring(old(self).delta_times@, delta_ms));
        }
    }

    /// The smoothed frame rate over the current history: the rounded
    /// reciprocal of the mean inter-frame duration, and zero while the
    /// mean is zero (for example right after startup).
    pub fn avg_fps(&self) -> (r: u32)
        requires
            self.wf(),
        ensures
            r as int == spec_rate(self.delta_times@),
    {
        let mut total: u64 = 0;
        let mut i: usize = 0;
        while i < 10
            invariant
                self.wf(),
                i <= 10,
                total as int == sum_of(self.delta_times@.subrange(0, i as int)),
            decreases 10 - i,
        {
            proof {
                lemma_sum_bound(self.delta_times@.subrange(0, i as int));
                assert(self.delta_times@.subrange(0, i as int + 1).drop_last()
                    =~= self.delta_times@.subrange(0, i as int));
            }
            total = total + self.delta_times[i] as u64;
            i += 1;
        }
        proof {
            assert(self.delta_times@.subrange(0, 10) =~= self.delta_times@);
        }
        if total == 0 {
            0
        } else {
            proof {
                lemma_sum_bound(self.delta_times@);
                assert((20000 + total as int) / (2 * total as int) <= 20000) by (nonlinear_arith)
                    requires
                        1 <= total as int,
                ;
            }
            ((20000u64 + total) / (2 * total)) as u32
        }
    }

    /// A consistent copy of the current frame together with the smoothed
    /// frame rate, read in one exclusive access.
    pub fn snapshot(&self) -> (r: (Frame, u32))
        requires
            self.wf(),
        ensures
            self.frame.eqv(r.0),
            r.1 as int == spec_rate(self.delta_times@),
    {
        (self.frame.clone(), self.avg_fps())
    }
}

} // verus!
