use crate::event::{Event, KeyCode};
use vstd::prelude::*;

verus! {

/// The funnel's abstract state: whether the application should keep running,
/// and the queue of events awaiting the caller, oldest first.
#[verifier::ext_equal]
pub ghost struct FunnelView {
    pub running: bool,
    pub queue: Seq<Event>,
}

/// The two event kinds the funnel intercepts instead of delivering: a quit
/// request, and a press (not a release) of the escape key.
pub open spec fn intercepts(e: Event) -> bool {
    ||| e == Event::Quit
    ||| (e matches Event::Keyboard { key, pressed } && key == KeyCode::Escape && pressed)
}

/// One funnel step: an intercepted event clears the running flag and is not
/// queued; every other event is appended at the tail. A step never sets the
/// running flag back to true and never reorders or drops queued events.
pub open spec fn funnel_step(s: FunnelView, e: Event) -> FunnelView {
    if intercepts(e) {
        FunnelView { running: false, ..s }
    } else {
        FunnelView { queue: s.queue.push(e), ..s }
    }
}

/// The funnel applied to a whole arrival sequence, oldest event first.
pub open spec fn funnel_run(s: FunnelView, events: Seq<Event>) -> FunnelView
    decreases events.len(),
{
    if events.len() == 0 {
        s
    } else {
        funnel_step(funnel_run(s, events.drop_last()), events.last())
    }
}

/// The subsequence of an arrival sequence that the funnel delivers: the
/// events that are not intercepted, in their original arrival order.
pub open spec fn kept(events: Seq<Event>) -> Seq<Event>
    decreases events.len(),
{
    if events.len() == 0 {
        Seq::empty()
    } else if intercepts(events.last()) {
        kept(events.drop_last())
    } else {
        kept(events.drop_last()).push(events.last())
    }
}

/// Whether an arrival sequence contains no intercepted event.
pub open spec fn none_intercepted(events: Seq<Event>) -> bool {
    forall|i: int| 0 <= i < events.len() ==> !intercepts(#[trigger] events[i])
}

/// Translates backend input into the closed event vocabulary one event at a
/// time, intercepting quit requests and escape presses, and queues the rest
/// strictly first-in-first-out for the caller to drain.
pub struct EventFunnel {
    running: bool,
    queue: Vec<Event>,
}

impl View for EventFunnel {
    type V = FunnelView;

    closed spec fn view(&self) -> FunnelView {
        FunnelView { running: self.running, queue: self.queue@ }
    }
}

impl EventFunnel {
    /// A fresh funnel is running and holds no events.
    pub fn new() -> (funnel: Self)
        ensures
            funnel@.running,
            funnel@.queue.len() == 0,
    {
        EventFunnel { running: true, queue: Vec::new() }
    }

    /// Whether this event is one the funnel intercepts.
    pub fn is_intercepted(e: &Event) -> (r: bool)
        ensures
            r == intercepts(*e),
    {
        match e {
            Event::Quit => true,
            Event::Keyboard { key: KeyCode::Escape, pressed: true } => true,
            _ => false,
        }
    }

    /// Feed one translated event through the funnel.
    pub fn feed(&mut self, e: Event)
        ensures
            final(self)@ == funnel_step(old(self)@, e),
    {
        if Self::is_intercepted(&e) {
            self.running = false;
        } else {
            self.queue.push(e);
        }
    }

    /// Feed a whole frame's arrivals through the funnel, oldest first.
    pub fn feed_all(&mut self, events: &Vec<Event>)
        ensures
            final(self)@ == funnel_run(old(self)@, events@),
    {
        let n: usize = events.len();
        let mut i: usize = 0;
        while i < n
            invariant
                i <= n,
                n == events@.len(),
                self@ == funnel_run(old(self)@, events@.take(i as int)),
            decreases n - i,
        {
            proof {
                let pre = events@.take(i as int);
                let post = events@.take(i as int + 1);
                assert(post.drop_last() =~= pre);
                assert(post.last() == events@[i as int]);
            }
            self.feed(events[i]);
            i += 1;
        }
        proof {
            assert(events@.take(n as int) =~= events@);
        }
    }

    /// Whether the application should keep running.
    pub fn is_running(&self) -> (r: bool)
        ensures
            r == self@.running,
    {
        self.running
    }

    /// Stop: clear the running flag. The queue is untouched.
    pub fn stop(&mut self)
        ensures
            final(self)@ == (FunnelView { running: false, ..old(self)@ }),
    {
        self.running = false;
    }

    /// Whether at least one delivered event is waiting.
    pub fn has_pending(&self) -> (r: bool)
        ensures
            r == (self@.queue.len() > 0),
    {
        self.queue.len() > 0
    }

    /// Remove and return the oldest waiting event. The queue must not be
    /// empty: callers guard with `has_pending` first.
    pub fn pop(&mut self) -> (e: Event)
        requires
            old(self)@.queue.len() > 0,
        ensures
            e == old(self)@.queue[0],
            final(self)@ == (FunnelView { queue: old(self)@.queue.drop_first(), ..old(self)@ }),
    {
        let e = self.queue.remove(0);
        proof {
            assert(old(self)@.queue.remove(0) =~= old(self)@.queue.drop_first());
        }
        e
    }
}

/// First-in-first-out law: running any arrival sequence through the funnel
/// appends exactly the non-intercepted arrivals, in arrival order, to the
/// queue; the running flag survives exactly when it was set and nothing in
/// the sequence is intercepted; and nothing intercepted is ever delivered.
pub proof fn lemma_funnel_fifo(s: FunnelView, events: Seq<Event>)
    ensures
        funnel_run(s, events).queue == s.queue + kept(events),
        funnel_run(s, events).running == (s.running && none_intercepted(events)),
        none_intercepted(kept(events)),
    decreases events.len(),
{
    if events.len() == 0 {
        assert(s.queue + kept(events) =~= s.queue);
    } else {
        let head = events.drop_last();
        let e = events.last();
        lemma_funnel_fifo(s, head);
        assert(events[events.len() - 1] == e);
        assert forall|i: int| 0 <= i < head.len() implies head[i] == events[i] by {}
        if intercepts(e) {
            assert(!none_intercepted(events));
            assert(s.queue + kept(head) =~= s.queue + kept(events));
        } else {
            assert(none_intercepted(events) == (none_intercepted(head) && !intercepts(e)))
                by {
                if none_intercepted(head) && !intercepts(e) {
                    assert forall|i: int| 0 <= i < events.len() implies !intercepts(
                        events[i],
                    ) by {
                        if i < events.len() - 1 {
                            assert(events[i] == head[i]);
                        }
                    }
                }
            }
            assert(s.queue + kept(events) =~= (s.queue + kept(head)).push(e));
            let k = kept(events);
            assert forall|i: int| 0 <= i < k.len() implies !intercepts(#[trigger] k[i]) by {
                if i < k.len() - 1 {
                    assert(k[i] == kept(head)[i]);
                }
            }
        }
    }
}

/// Funnelling arrivals frame by frame is the same as funnelling the single
/// concatenated arrival sequence: the split into frames is invisible to the
/// final state, so delivery order is kept across frames as well as within
/// one.
pub proof fn lemma_funnel_run_append(s: FunnelView, first: Seq<Event>, second: Seq<Event>)
    ensures
        funnel_run(funnel_run(s, first), second) == funnel_run(s, first + second),
    decreases second.len(),
{
    if second.len() == 0 {
        assert(first + second =~= first);
    } else {
        lemma_funnel_run_append(s, first, second.drop_last());
        assert((first + second).drop_last() =~= first + second.drop_last());
        assert((first + second).last() == second.last());
    }
}

} // verus!
