//! Window events and their classification from raw OS notifications.
use vstd::prelude::*;

verus! {

/// OS notification code: the foreground window changed.
pub const EVENT_SYSTEM_FOREGROUND: u32 = 0x0003;
/// OS notification code: an object was created.
pub const EVENT_OBJECT_CREATE: u32 = 0x8000;
/// OS notification code: an object was shown.
pub const EVENT_OBJECT_SHOW: u32 = 0x8002;
/// OS notification code: an object received keyboard focus.
pub const EVENT_OBJECT_FOCUS: u32 = 0x8005;
/// OS notification code: a window is about to be minimized.
pub const EVENT_SYSTEM_MINIMIZESTART: u32 = 0x0016;
/// OS notification code: a window was restored from minimized.
pub const EVENT_SYSTEM_MINIMIZEEND: u32 = 0x0017;
/// OS notification code: the z-order of children of an object changed.
pub const EVENT_OBJECT_REORDER: u32 = 0x8004;

/// Kinds of window notifications that the monitor records.
#[derive(Debug, Clone, Copy, PartialEq, Eq, Structural)]
pub enum EventType {
    Foreground,
    Created,
    Shown,
    Focus,
    Minimized,
    Restored,
    ZOrderChanged,
}

impl EventType {
    /// The label written to the log for this kind.
    pub open spec fn label(self) -> Seq<char> {
        match self {
            EventType::Foreground => "FOCUS"@,
            EventType::Created => "CREATED"@,
            EventType::Shown => "SHOWN"@,
            EventType::Focus => "FOCUS"@,
            EventType::Minimized => "MINIMIZED"@,
            EventType::Restored => "RESTORED"@,
            EventType::ZOrderChanged => "Z-ORDER"@,
        }
    }

    /// Kinds on which the process-name heuristic is evaluated.
    pub open spec fn is_activation(self) -> bool {
        self is Foreground || self is Shown || self is Created
    }

    /// Kinds that are only recorded for visible, non-minimized windows.
    pub open spec fn needs_visible_window(self) -> bool {
        self is Created || self is Shown
    }

    pub fn as_str(&self) -> (r: &'static str)
        ensures
            r@ == self.label(),
    {
        match self {
            EventType::Foreground => "FOCUS",
            EventType::Created => "CREATED",
            EventType::Shown => "SHOWN",
            EventType::Focus => "FOCUS",
            EventType::Minimized => "MINIMIZED",
            EventType::Restored => "RESTORED",
            EventType::ZOrderChanged => "Z-ORDER",
        }
    }

    pub fn requires_visible_window(&self) -> (r: bool)
        ensures
            r == self.needs_visible_window(),
    {
        match self {
            EventType::Created | EventType::Shown => true,
            _ => false,
        }
    }
}

/// The kind that a raw notification code stands for, if the monitor records it.
pub open spec fn kind_of_code(code: u32) -> Option<EventType> {
    if code == EVENT_SYSTEM_FOREGROUND {
        Some(EventType::Foreground)
    } else if code == EVENT_OBJECT_CREATE {
        Some(EventType::Created)
    } else if code == EVENT_OBJECT_SHOW {
        Some(EventType::Shown)
    } else if code == EVENT_OBJECT_FOCUS {
        Some(EventType::Focus)
    } else if code == EVENT_SYSTEM_MINIMIZESTART {
        Some(EventType::Minimized)
    } else if code == EVENT_SYSTEM_MINIMIZEEND {
        Some(EventType::Restored)
    } else if code == EVENT_OBJECT_REORDER {
        Some(EventType::ZOrderChanged)
    } else {
        None
    }
}

/// The pre-filter of the capture callback: only the window object itself
/// (object id 0) of a recorded kind passes, and creation or show events pass
/// only for a visible window that is not minimized.
pub open spec fn filtered_kind(code: u32, object_id: i32, visible: bool, minimized: bool) -> Option<
    EventType,
> {
    if object_id != 0 {
        None
    } else {
        match kind_of_code(code) {
            None => None,
            Some(k) => if k.needs_visible_window() && (!visible || minimized) {
                None
            } else {
                Some(k)
            },
        }
    }
}

pub fn event_kind_from_code(code: u32) -> (r: Option<EventType>)
    ensures
        r == kind_of_code(code),
{
    if code == EVENT_SYSTEM_FOREGROUND {
        Some(EventType::Foreground)
    } else if code == EVENT_OBJECT_CREATE {
        Some(EventType::Created)
    } else if code == EVENT_OBJECT_SHOW {
        Some(EventType::Shown)
    } else if code == EVENT_OBJECT_FOCUS {
        Some(EventType::Focus)
    } else if code == EVENT_SYSTEM_MINIMIZESTART {
        Some(EventType::Minimized)
    } else if code == EVENT_SYSTEM_MINIMIZEEND {
        Some(EventType::Restored)
    } else if code == EVENT_OBJECT_REORDER {
        Some(EventType::ZOrderChanged)
    } else {
        None
    }
}

/// Classifies a raw notification. `visible` and `minimized` describe the
/// window at the time of the notification; they matter only for creation and
/// show events.
pub fn classify_win_event(code: u32, object_id: i32, visible: bool, minimized: bool) -> (r: Option<
    EventType,
>)
    ensures
        r == filtered_kind(code, object_id, visible, minimized),
{
    if object_id != 0 {
        return None;
    }
    match event_kind_from_code(code) {
        None => None,
        Some(k) => {
            if k.requires_visible_window() && (!visible || minimized) {
                None
            } else {
                Some(k)
            }
        },
    }
}

/// A local calendar time with the milliseconds since the Unix epoch that it
/// stands for.
#[derive(Debug, Clone, Copy, PartialEq, Eq, Structural)]
pub struct LocalTime {
    pub epoch_ms: i64,
    pub year: u32,
    pub month: u32,
    pub day: u32,
    pub hour: u32,
    pub minute: u32,
    pub second: u32,
    pub millisecond: u32,
}

/// An opaque operating-system window handle. It offers no arithmetic, so
/// handles cannot be confused with other integers.
#[derive(Debug, Clone, Copy, PartialEq, Eq, Structural)]
pub struct WindowHandle(pub isize);

/// A window notification that passed the capture pre-filter.
#[derive(Debug, Clone, Copy, PartialEq, Eq, Structural)]
pub struct WindowEvent {
    pub event_type: EventType,
    pub hwnd: WindowHandle,
    pub timestamp: LocalTime,
}

} // verus!
