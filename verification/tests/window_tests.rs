use winframe::event::{Event, KeyCode};
use winframe::funnel::EventFunnel;
use winframe::shape::Rect;
use winframe::window::{Image, Window};

fn key(k: KeyCode, pressed: bool) -> Event {
    Event::Keyboard { key: k, pressed }
}

fn drain(w: &mut Window) -> Vec<Event> {
    let mut out = Vec::new();
    while w.has_event() {
        out.push(w.next_event());
    }
    out
}

#[test]
fn fresh_window_has_no_events() {
    let w = Window::new("caption", 640, 480);
    assert!(!w.has_event());
    assert!(w.is_running());
}

#[test]
fn fifo_single_frame() {
    let mut w = Window::new("t", 320, 200);
    let evs = vec![
        key(KeyCode::Left, true),
        key(KeyCode::Right, true),
        key(KeyCode::Left, false),
    ];
    assert!(w.next_frame(100, &evs));
    assert_eq!(drain(&mut w), evs);
    assert!(!w.has_event());
}

#[test]
fn fifo_across_frames() {
    let mut w = Window::new("t", 320, 200);
    assert!(w.next_frame(20, &vec![key(KeyCode::Up, true), key(KeyCode::Down, true)]));
    assert!(w.next_frame(40, &vec![Event::Other, key(KeyCode::Up, false)]));
    assert_eq!(
        drain(&mut w),
        vec![
            key(KeyCode::Up, true),
            key(KeyCode::Down, true),
            Event::Other,
            key(KeyCode::Up, false),
        ]
    );
}

#[test]
fn quit_event_intercepted() {
    let mut w = Window::new("t", 320, 200);
    assert!(!w.next_frame(30, &vec![Event::Quit]));
    assert!(!w.has_event());
    assert!(!w.is_running());
    assert!(!w.next_frame(60, &Vec::new()));
}

#[test]
fn escape_press_intercepted() {
    let mut w = Window::new("t", 320, 200);
    assert!(!w.next_frame(30, &vec![key(KeyCode::Escape, true)]));
    assert!(!w.has_event());
    assert!(!w.next_frame(60, &Vec::new()));
}

#[test]
fn escape_release_delivered() {
    let mut w = Window::new("t", 320, 200);
    assert!(w.next_frame(30, &vec![key(KeyCode::Escape, false)]));
    assert!(w.is_running());
    assert_eq!(drain(&mut w), vec![key(KeyCode::Escape, false)]);
}

#[test]
fn events_after_intercept_still_delivered() {
    let mut w = Window::new("t", 320, 200);
    let a = key(KeyCode::Space, true);
    let b = key(KeyCode::Return, true);
    assert!(!w.next_frame(30, &vec![a, Event::Quit, b]));
    assert_eq!(drain(&mut w), vec![a, b]);
}

#[test]
fn stop_is_idempotent() {
    let mut w = Window::new("t", 320, 200);
    w.quit();
    assert!(!w.next_frame(30, &vec![key(KeyCode::Space, true)]));
    assert!(!w.next_frame(31, &vec![key(KeyCode::Space, true)]));
    assert!(!w.has_event());
    // A stopped frame records no timestamp either: the pacing deadline still
    // counts from the fresh window's tick-zero sentinel.
    assert!(w.pacing_elapsed(16));
}

#[test]
fn pacing_threshold_exact() {
    let mut w = Window::new("t", 320, 200);
    // Fresh window: previous-frame record is tick zero, target is 16 ticks.
    assert!(!w.pacing_elapsed(15));
    assert!(w.pacing_elapsed(16));
    assert!(w.next_frame(100, &Vec::new()));
    assert!(!w.pacing_elapsed(115));
    assert!(w.pacing_elapsed(116));
    // A clock reading before the recorded frame never meets the deadline.
    assert!(!w.pacing_elapsed(50));
}

#[test]
fn first_frame_prompt() {
    let w = Window::new("t", 320, 200);
    // One target duration after the backend clock started, the first frame
    // is already due: construction itself adds no wait.
    assert!(w.pacing_elapsed(16));
    assert!(w.pacing_elapsed(1000));
}

#[test]
fn quit_keeps_queued_events() {
    let mut w = Window::new("t", 320, 200);
    assert!(w.next_frame(30, &vec![key(KeyCode::Space, true)]));
    w.quit();
    assert!(!w.next_frame(60, &Vec::new()));
    assert_eq!(drain(&mut w), vec![key(KeyCode::Space, true)]);
}

#[test]
fn funnel_pop_interleaved_with_feed() {
    let mut f = EventFunnel::new();
    f.feed(key(KeyCode::Left, true));
    f.feed(key(KeyCode::Right, true));
    assert!(f.has_pending());
    assert_eq!(f.pop(), key(KeyCode::Left, true));
    f.feed(key(KeyCode::Up, true));
    assert_eq!(f.pop(), key(KeyCode::Right, true));
    assert_eq!(f.pop(), key(KeyCode::Up, true));
    assert!(!f.has_pending());
    assert!(f.is_running());
}

#[test]
fn funnel_intercept_detector() {
    assert!(EventFunnel::is_intercepted(&Event::Quit));
    assert!(EventFunnel::is_intercepted(&key(KeyCode::Escape, true)));
    assert!(!EventFunnel::is_intercepted(&key(KeyCode::Escape, false)));
    assert!(!EventFunnel::is_intercepted(&key(KeyCode::Space, true)));
    assert!(!EventFunnel::is_intercepted(&Event::Other));
    assert!(!EventFunnel::is_intercepted(&key(KeyCode::Other(27), true)));
}

#[test]
fn image_reports_its_size() {
    let img = Image::new(64, 48);
    assert_eq!(img.get_width(), 64);
    assert_eq!(img.get_height(), 48);
    assert_eq!(img.dest_rect(10, 20), Rect { x: 10, y: 20, w: 64, h: 48 });
}

#[test]
fn colour_state_survives_frames() {
    let mut w = Window::new("t", 320, 200);
    w.set_color(10, 20, 30, 40);
    assert!(w.next_frame(30, &Vec::new()));
    w.clear();
    assert!(w.is_running());
}
