use crate::event::Event;
use crate::funnel::{funnel_run, EventFunnel, FunnelView};
use crate::pacer::{deadline_met, FramePacer};
use crate::shape::{Color, Rect};
use vstd::prelude::*;

verus! {

/// The frame pacing target, in backend clock ticks (milliseconds): one
/// sixtieth of a second, truncated to whole ticks. The truncation biases the
/// real frame rate slightly above sixty frames per second; it is kept as a
/// known rounding artifact rather than corrected.
pub const TARGET_TICKS_PER_FRAME: u32 = 1000 / 60;

/// The window's abstract state: the running flag, the pending event queue
/// (oldest first), the pacer's target and previous-frame tick record, the
/// persistent draw colour, and the construction-time caption and size.
#[verifier::ext_equal]
pub ghost struct WindowView {
    pub running: bool,
    pub queue: Seq<Event>,
    pub target: nat,
    pub prev: nat,
    pub color: Color,
    pub width: i32,
    pub height: i32,
    pub caption: Seq<char>,
}

/// The state a newly constructed window starts in: running, with an empty
/// event queue, the pacing target set and the previous-frame record at the
/// tick-zero sentinel, and the draw colour forced to opaque black by the
/// construction-time clear.
pub open spec fn fresh_window(caption: Seq<char>, width: i32, height: i32) -> WindowView {
    WindowView {
        running: true,
        queue: Seq::empty(),
        target: TARGET_TICKS_PER_FRAME as nat,
        prev: 0,
        color: Color { r: 0, g: 0, b: 0, a: 255 },
        width,
        height,
        caption,
    }
}

/// One frame advance over the abstract state, given the clock reading taken
/// when pacing finished and the frame's translated arrivals. A stopped
/// window changes nothing and reports stop; a running one records the clock
/// reading, funnels the arrivals, and reports whether it is still running.
pub open spec fn next_frame_spec(w: WindowView, now_ticks: u32, events: Seq<Event>) -> (
    WindowView,
    bool,
) {
    if !w.running {
        (w, false)
    } else {
        let f = funnel_run(FunnelView { running: w.running, queue: w.queue }, events);
        (
            WindowView { running: f.running, queue: f.queue, prev: now_ticks as nat, ..w },
            f.running,
        )
    }
}

/// The window's verified core: the running flag, the first-in-first-out
/// event queue, the frame pacer and the persistent draw colour. The backend
/// resources themselves (display surface, renderer, event pump, clock) live
/// outside this crate; their shell drives this type with plain values and
/// obeys its contracts.
pub struct Window {
    pacer: FramePacer,
    funnel: EventFunnel,
    draw_color: Color,
    width: i32,
    height: i32,
    caption: String,
}

impl View for Window {
    type V = WindowView;

    closed spec fn view(&self) -> WindowView {
        WindowView {
            running: self.funnel@.running,
            queue: self.funnel@.queue,
            target: self.pacer@.target,
            prev: self.pacer@.prev,
            color: self.draw_color,
            width: self.width,
            height: self.height,
            caption: self.caption@,
        }
    }
}

impl Window {
    /// Initialise a new running window's state. `name` is kept as the
    /// caption; `width` and `height` are the pixel dimensions the backend
    /// window is opened with. The framebuffer clear that construction
    /// performs leaves the draw colour at opaque black.
    pub fn new(name: &str, width: i32, height: i32) -> (w: Self)
        ensures
            w@ == fresh_window(name@, width, height),
            w@.running,
            w@.queue.len() == 0,
    {
        let w = Window {
            pacer: FramePacer::new(TARGET_TICKS_PER_FRAME),
            funnel: EventFunnel::new(),
            draw_color: Color { r: 0, g: 0, b: 0, a: 255 },
            width,
            height,
            caption: name.to_owned(),
        };
        proof {
            assert(w@ =~= fresh_window(name@, width, height));
        }
        w
    }

    /// Advance one frame: `now_ticks` is the clock reading taken once the
    /// pacing deadline was met, and `events` are this frame's arrivals,
    /// already translated, oldest first. If the window is stopped nothing
    /// changes and the result is false; otherwise the clock reading is
    /// recorded, the arrivals are funnelled (interception included), and the
    /// result says whether the application should keep running.
    pub fn next_frame(&mut self, now_ticks: u32, events: &Vec<Event>) -> (keep_running: bool)
        ensures
            final(self)@ == next_frame_spec(old(self)@, now_ticks, events@).0,
            keep_running == next_frame_spec(old(self)@, now_ticks, events@).1,
    {
        if !self.funnel.is_running() {
            return false;
        }
        self.pacer.record(now_ticks);
        self.funnel.feed_all(events);
        let keep_running = self.funnel.is_running();
        proof {
            assert(self@ =~= next_frame_spec(old(self)@, now_ticks, events@).0);
        }
        keep_running
    }

    /// Whether the target frame duration has elapsed since the previous
    /// frame at a clock reading of `now_ticks`. The shell spins (with short
    /// sleeps) until this holds before presenting.
    pub fn pacing_elapsed(&self, now_ticks: u32) -> (due: bool)
        ensures
            due == deadline_met(self@.target, self@.prev, now_ticks as nat),
    {
        self.pacer.elapsed(now_ticks)
    }

    /// Whether the frame loop should continue. Stays false once cleared.
    pub fn is_running(&self) -> (r: bool)
        ensures
            r == self@.running,
    {
        self.funnel.is_running()
    }

    /// True when there is an event waiting in the queue for processing.
    pub fn has_event(&self) -> (r: bool)
        ensures
            r == (self@.queue.len() > 0),
    {
        self.funnel.has_pending()
    }

    /// Remove and return the next event, first in first out: the oldest
    /// arrival still queued. The queue must not be empty; callers guard with
    /// `has_event` first.
    pub fn next_event(&mut self) -> (e: Event)
        requires
            old(self)@.queue.len() > 0,
        ensures
            e == old(self)@.queue[0],
            final(self)@ == (WindowView { queue: old(self)@.queue.drop_first(), ..old(self)@ }),
    {
        let e = self.funnel.pop();
        proof {
            assert(self@ =~= (WindowView { queue: old(self)@.queue.drop_first(), ..old(self)@ }));
        }
        e
    }

    /// Request a stop: the next `next_frame` call returns false. Queued
    /// events stay available for draining.
    pub fn quit(&mut self)
        ensures
            final(self)@ == (WindowView { running: false, ..old(self)@ }),
    {
        self.funnel.stop();
        proof {
            assert(self@ =~= (WindowView { running: false, ..old(self)@ }));
        }
    }

    /// Set the persistent draw colour applied to every subsequent draw call
    /// until changed. Nothing resets it between frames.
    pub fn set_color(&mut self, red: u8, green: u8, blue: u8, alpha: u8)
        ensures
            final(self)@ == (WindowView {
                color: Color { r: red, g: green, b: blue, a: alpha },
                ..old(self)@
            }),
    {
        self.draw_color = Color { r: red, g: green, b: blue, a: alpha };
        proof {
            assert(self@ =~= (WindowView {
                color: Color { r: red, g: green, b: blue, a: alpha },
                ..old(self)@
            }));
        }
    }

    /// Clearing the screen to black forces the draw colour to opaque black
    /// as a side effect; the framebuffer clear itself is the backend's.
    pub fn clear(&mut self)
        ensures
            final(self)@ == (WindowView {
                color: Color { r: 0, g: 0, b: 0, a: 255 },
                ..old(self)@
            }),
    {
        self.set_color(0, 0, 0, 255);
    }
}

/// A bitmap as the drawing surface sees it: its width and height in pixels.
/// The decoded pixel data itself is a backend texture owned by the shell,
/// alongside this record, and must not outlive the window that decoded it.
pub struct Image {
    width: i32,
    height: i32,
}

impl Image {
    /// Record a decoded bitmap's dimensions, as the backend reports them.
    pub fn new(width: i32, height: i32) -> (img: Self)
        requires
            width >= 0,
            height >= 0,
        ensures
            img.spec_width() == width,
            img.spec_height() == height,
    {
        Image { width, height }
    }

    pub closed spec fn spec_width(&self) -> i32 {
        self.width
    }

    pub closed spec fn spec_height(&self) -> i32 {
        self.height
    }

    pub fn get_width(&self) -> (w: i32)
        ensures
            w == self.spec_width(),
    {
        self.width
    }

    pub fn get_height(&self) -> (h: i32)
        ensures
            h == self.spec_height(),
    {
        self.height
    }

    /// The destination rectangle for blitting this image with its top-left
    /// corner at `(x, y)`: the image's own stored size, unscaled.
    pub fn dest_rect(&self, x: i32, y: i32) -> (r: Rect)
        ensures
            r == (Rect { x, y, w: self.spec_width(), h: self.spec_height() }),
    {
        Rect { x, y, w: self.width, h: self.height }
    }
}

/// Idempotent stop: once the running flag is false, a frame advance changes
/// nothing — no event is queued, no clock reading is recorded — and reports
/// stop, whatever the clock says and whatever arrives.
pub proof fn lemma_stopped_frame_is_noop(w: WindowView, now_ticks: u32, events: Seq<Event>)
    requires
        !w.running,
    ensures
        next_frame_spec(w, now_ticks, events).0 == w,
        next_frame_spec(w, now_ticks, events).1 == false,
{
}

/// Interception: a frame whose arrivals include a quit request or an escape
/// press reports stop, leaves the window stopped, still appends exactly the
/// non-intercepted arrivals in order, and every later frame advance reports
/// stop as well.
pub proof fn lemma_interception(w: WindowView, now_ticks: u32, events: Seq<Event>, i: int)
    requires
        0 <= i < events.len(),
        crate::funnel::intercepts(events[i]),
    ensures
        next_frame_spec(w, now_ticks, events).1 == false,
        !next_frame_spec(w, now_ticks, events).0.running,
        w.running ==> next_frame_spec(w, now_ticks, events).0.queue == w.queue
            + crate::funnel::kept(events),
        forall|now2: u32, events2: Seq<Event>|
            #[trigger] next_frame_spec(
                next_frame_spec(w, now_ticks, events).0,
                now2,
                events2,
            ).1 == false,
{
    let start = FunnelView { running: w.running, queue: w.queue };
    crate::funnel::lemma_funnel_fifo(start, events);
    assert(!crate::funnel::none_intercepted(events));
    assert forall|now2: u32, events2: Seq<Event>|
        #[trigger] next_frame_spec(
            next_frame_spec(w, now_ticks, events).0,
            now2,
            events2,
        ).1 == false by {
        lemma_stopped_frame_is_noop(next_frame_spec(w, now_ticks, events).0, now2, events2);
    }
}

/// First-frame promptness: a freshly constructed window's pacing deadline
/// holds exactly when the backend clock has run for one target duration at
/// all — the tick-zero sentinel adds no wait of its own, so the first frame
/// is never held back by a previous one.
pub proof fn lemma_first_frame_prompt(
    caption: Seq<char>,
    width: i32,
    height: i32,
    now_ticks: nat,
)
    ensures
        deadline_met(
            fresh_window(caption, width, height).target,
            fresh_window(caption, width, height).prev,
            now_ticks,
        ) <==> now_ticks >= TARGET_TICKS_PER_FRAME,
{
}

} // verus!
