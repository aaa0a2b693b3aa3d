use vstd::prelude::*;

verus! {

/// The pacer's abstract state: the target frame duration and the tick count
/// recorded when the previous frame was presented, both in backend clock
/// ticks (milliseconds).
#[verifier::ext_equal]
pub ghost struct PacerView {
    pub target: nat,
    pub prev: nat,
}

/// The next frame is due once at least `target` ticks have passed since the
/// tick count recorded for the previous frame. A clock reading below `prev`
/// never satisfies the deadline: the backend clock is monotonic, so such a
/// reading means the previous record is still in the future of this one.
pub open spec fn deadline_met(target: nat, prev: nat, now_ticks: nat) -> bool {
    prev <= now_ticks && now_ticks - prev >= target
}

/// Tracks when the previous frame was presented and decides when the next one
/// is due, so that frames are spaced at least one target duration apart. The
/// waiting itself (sleeping until `elapsed` holds) is the caller's loop; this
/// type owns the decision.
pub struct FramePacer {
    target_ticks_per_frame: u32,
    ticks_at_previous_frame: u32,
}

impl View for FramePacer {
    type V = PacerView;

    closed spec fn view(&self) -> PacerView {
        PacerView {
            target: self.target_ticks_per_frame as nat,
            prev: self.ticks_at_previous_frame as nat,
        }
    }
}

impl FramePacer {
    /// A fresh pacer records tick zero for the previous frame: a sentinel
    /// already in the past for any clock that has run for one target
    /// duration, so the first frame is not held back by an earlier one.
    pub fn new(target_ticks_per_frame: u32) -> (pacer: Self)
        ensures
            pacer@.target == target_ticks_per_frame,
            pacer@.prev == 0,
    {
        FramePacer { target_ticks_per_frame, ticks_at_previous_frame: 0 }
    }

    /// Whether the target duration has elapsed since the previous frame at a
    /// clock reading of `now_ticks`.
    pub fn elapsed(&self, now_ticks: u32) -> (due: bool)
        ensures
            due == deadline_met(self@.target, self@.prev, now_ticks as nat),
    {
        self.ticks_at_previous_frame <= now_ticks
            && now_ticks - self.ticks_at_previous_frame >= self.target_ticks_per_frame
    }

    /// Record the clock reading at which the frame just paced was presented;
    /// the next deadline counts from here.
    pub fn record(&mut self, now_ticks: u32)
        ensures
            final(self)@ == (PacerView { prev: now_ticks as nat, ..old(self)@ }),
    {
        self.ticks_at_previous_frame = now_ticks;
    }
}

/// Pacing lower bound: whenever the deadline predicate admits a clock
/// reading, that reading lies at least one full target duration past the
/// previous frame's record. A caller that waits for the predicate before
/// presenting therefore never presents two frames closer together than the
/// target duration.
pub proof fn lemma_pacing_lower_bound(target: nat, prev: nat, now_ticks: nat)
    requires
        deadline_met(target, prev, now_ticks),
    ensures
        now_ticks >= prev + target,
{
}

} // verus!
