use pc_watcher::dedup::DedupWindow;
use pc_watcher::event::{EventType, LocalTime, WindowEvent, WindowHandle};

fn dedup_time(ms: i64) -> LocalTime {
    LocalTime {
        epoch_ms: ms,
        year: 2025,
        month: 1,
        day: 2,
        hour: 3,
        minute: 4,
        second: 5,
        millisecond: (ms % 1000) as u32,
    }
}

fn ev(kind: EventType, hwnd: isize, ms: i64) -> WindowEvent {
    WindowEvent { event_type: kind, hwnd: WindowHandle(hwnd), timestamp: dedup_time(ms) }
}

#[test]
fn repeat_within_interval_is_dropped() {
    let mut w = DedupWindow::new();
    assert!(w.accept(&ev(EventType::Foreground, 7, 1_000)));
    assert!(!w.accept(&ev(EventType::Foreground, 7, 1_050)));
    assert!(!w.accept(&ev(EventType::Foreground, 7, 1_099)));
    assert!(!w.accept(&ev(EventType::Foreground, 7, 901)));
}

#[test]
fn repeat_after_interval_passes() {
    let mut w = DedupWindow::new();
    assert!(w.accept(&ev(EventType::Foreground, 7, 1_000)));
    assert!(w.accept(&ev(EventType::Foreground, 7, 1_100)));
    assert!(w.accept(&ev(EventType::Foreground, 7, 1_250)));
}

#[test]
fn other_window_or_kind_passes() {
    let mut w = DedupWindow::new();
    assert!(w.accept(&ev(EventType::Foreground, 7, 1_000)));
    assert!(w.accept(&ev(EventType::Foreground, 8, 1_010)));
    assert!(w.accept(&ev(EventType::Shown, 7, 1_020)));
    assert!(!w.is_duplicate(&ev(EventType::Created, 7, 1_030)));
    assert!(w.is_duplicate(&ev(EventType::Shown, 7, 1_030)));
}

#[test]
fn window_forgets_after_ten_events() {
    let mut w = DedupWindow::new();
    assert!(w.accept(&ev(EventType::Focus, 1, 5_000)));
    for h in 2..12 {
        assert!(w.accept(&ev(EventType::Focus, h, 5_001)));
    }
    // the first event left the window, so its repeat passes
    assert!(w.accept(&ev(EventType::Focus, 1, 5_002)));
}

#[test]
fn window_remembers_ten_events() {
    let mut w = DedupWindow::new();
    assert!(w.accept(&ev(EventType::Focus, 1, 5_000)));
    for h in 2..11 {
        assert!(w.accept(&ev(EventType::Focus, h, 5_001)));
    }
    assert!(!w.accept(&ev(EventType::Focus, 1, 5_002)));
}

#[test]
fn extreme_timestamps_do_not_overflow() {
    let mut w = DedupWindow::new();
    assert!(w.accept(&ev(EventType::Focus, 1, i64::MIN)));
    assert!(w.accept(&ev(EventType::Focus, 1, i64::MAX)));
}

#[test]
fn handles_compare_by_value() {
    assert_eq!(WindowHandle(5), WindowHandle(5));
    assert_ne!(WindowHandle(5), WindowHandle(6));
}
