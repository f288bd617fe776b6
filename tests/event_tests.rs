use pc_watcher::event::{
    classify_win_event, event_kind_from_code, EventType, EVENT_OBJECT_CREATE, EVENT_OBJECT_FOCUS,
    EVENT_OBJECT_REORDER, EVENT_OBJECT_SHOW, EVENT_SYSTEM_FOREGROUND, EVENT_SYSTEM_MINIMIZEEND,
    EVENT_SYSTEM_MINIMIZESTART,
};

#[test]
fn labels_of_every_kind() {
    assert_eq!(EventType::Foreground.as_str(), "FOCUS");
    assert_eq!(EventType::Created.as_str(), "CREATED");
    assert_eq!(EventType::Shown.as_str(), "SHOWN");
    assert_eq!(EventType::Focus.as_str(), "FOCUS");
    assert_eq!(EventType::Minimized.as_str(), "MINIMIZED");
    assert_eq!(EventType::Restored.as_str(), "RESTORED");
    assert_eq!(EventType::ZOrderChanged.as_str(), "Z-ORDER");
}

#[test]
fn codes_map_to_kinds() {
    assert_eq!(event_kind_from_code(EVENT_SYSTEM_FOREGROUND), Some(EventType::Foreground));
    assert_eq!(event_kind_from_code(EVENT_OBJECT_CREATE), Some(EventType::Created));
    assert_eq!(event_kind_from_code(EVENT_OBJECT_SHOW), Some(EventType::Shown));
    assert_eq!(event_kind_from_code(EVENT_OBJECT_FOCUS), Some(EventType::Focus));
    assert_eq!(event_kind_from_code(EVENT_SYSTEM_MINIMIZESTART), Some(EventType::Minimized));
    assert_eq!(event_kind_from_code(EVENT_SYSTEM_MINIMIZEEND), Some(EventType::Restored));
    assert_eq!(event_kind_from_code(EVENT_OBJECT_REORDER), Some(EventType::ZOrderChanged));
    assert_eq!(event_kind_from_code(0x8001), None);
}

#[test]
fn child_objects_are_ignored() {
    assert_eq!(classify_win_event(EVENT_SYSTEM_FOREGROUND, -4, true, false), None);
    assert_eq!(classify_win_event(EVENT_SYSTEM_FOREGROUND, 0, true, false), Some(EventType::Foreground));
}

#[test]
fn created_needs_visible_unminimized_window() {
    assert_eq!(classify_win_event(EVENT_OBJECT_CREATE, 0, true, false), Some(EventType::Created));
    assert_eq!(classify_win_event(EVENT_OBJECT_CREATE, 0, false, false), None);
    assert_eq!(classify_win_event(EVENT_OBJECT_SHOW, 0, true, true), None);
    assert_eq!(classify_win_event(EVENT_OBJECT_SHOW, 0, true, false), Some(EventType::Shown));
}

#[test]
fn other_kinds_ignore_visibility() {
    assert_eq!(classify_win_event(EVENT_SYSTEM_MINIMIZESTART, 0, false, true), Some(EventType::Minimized));
    assert_eq!(classify_win_event(EVENT_OBJECT_REORDER, 0, false, false), Some(EventType::ZOrderChanged));
    assert_eq!(classify_win_event(0x1234, 0, true, false), None);
}
