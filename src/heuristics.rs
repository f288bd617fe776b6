//! Suspicious-activity heuristics: process-name patterns and focus changes
//! without a preceding pointer click.
use vstd::prelude::*;
use crate::event::EventType;
use crate::text::{contains_text, has_infix, lower_of, lowercase, same_text};

verus! {

/// A focus change counts as clicked when a click came less than this many
/// milliseconds before it.
pub const CLICK_WINDOW_MS: u64 = 500;

/// Number of process-name patterns.
pub const PATTERN_COUNT: usize = 8;

/// Lower-case substrings of process names of shells, script hosts and loaders.
pub open spec fn suspicious_patterns() -> Seq<Seq<char>> {
    seq![
        "powershell"@,
        "pwsh"@,
        "cmd"@,
        "wscript"@,
        "cscript"@,
        "mshta"@,
        "rundll32"@,
        "regsvr32"@,
    ]
}

/// An already lower-cased process name contains one of the patterns.
pub open spec fn names_suspicious(lowered: Seq<char>) -> bool {
    exists|i: int| 0 <= i < suspicious_patterns().len() && has_infix(lowered, #[trigger] suspicious_patterns()[i])
}

/// The pattern at `i`.
pub fn suspicious_pattern(i: usize) -> (r: &'static str)
    requires
        i < PATTERN_COUNT,
    ensures
        r@ == suspicious_patterns()[i as int],
{
    if i == 0 {
        "powershell"
    } else if i == 1 {
        "pwsh"
    } else if i == 2 {
        "cmd"
    } else if i == 3 {
        "wscript"
    } else if i == 4 {
        "cscript"
    } else if i == 5 {
        "mshta"
    } else if i == 6 {
        "rundll32"
    } else {
        "regsvr32"
    }
}

/// Whether an already lower-cased process name contains one of the patterns.
pub fn matches_suspicious_pattern(lowered: &str) -> (r: bool)
    ensures
        r == names_suspicious(lowered@),
{
    let mut i: usize = 0;
    while i < PATTERN_COUNT
        invariant
            i <= PATTERN_COUNT,
            forall|j: int| 0 <= j < i ==> !has_infix(lowered@, #[trigger] suspicious_patterns()[j]),
        decreases PATTERN_COUNT - i,
    {
        if contains_text(lowered, suspicious_pattern(i)) {
            return true;
        }
        i = i + 1;
    }
    false
}

/// Whether a process name, compared without regard to case, contains one of
/// the patterns.
pub fn is_suspicious_process(process_name: &str) -> (r: bool)
    ensures
        r == names_suspicious(lower_of(process_name@)),
{
    let lowered = lowercase(process_name);
    matches_suspicious_pattern(lowered.as_str())
}

/// Milliseconds from `earlier` to `now`, zero when `earlier` is later.
pub open spec fn elapsed_ms(now: u64, earlier: u64) -> nat {
    if now >= earlier {
        (now - earlier) as nat
    } else {
        0
    }
}

/// A click at `last_click_ms` counts as preceding a focus change at `now_ms`.
pub open spec fn click_is_recent(now_ms: u64, last_click_ms: u64) -> bool {
    elapsed_ms(now_ms, last_click_ms) < CLICK_WINDOW_MS
}

/// Whether the last pointer click, at `last_click_ms`, came less than the
/// click window before `now_ms` (both on the same millisecond clock).
pub fn was_recent_mouse_click(now_ms: u64, last_click_ms: u64) -> (r: bool)
    ensures
        r == click_is_recent(now_ms, last_click_ms),
{
    now_ms.saturating_sub(last_click_ms) < CLICK_WINDOW_MS
}

/// The monitor's own windows, the shell process and the taskbar and desktop
/// window classes may take focus without a click.
pub open spec fn is_allow_listed(lowered_name: Seq<char>, window_class: Seq<char>) -> bool {
    ||| lowered_name == "pc_watcher"@
    ||| lowered_name == "pc_watcher.exe"@
    ||| lowered_name == "explorer"@
    ||| lowered_name == "explorer.exe"@
    ||| window_class == "Shell_TrayWnd"@
    ||| window_class == "Progman"@
    ||| window_class == "PCWatcherAlert"@
    ||| window_class == "PCWatcherDetails"@
    ||| window_class == "PCWatcherTray"@
}

/// Whether a window of a process (its name already lower-cased) is exempt
/// from the focus-without-click heuristic.
pub fn allow_listed(lowered_name: &str, window_class: &str) -> (r: bool)
    ensures
        r == is_allow_listed(lowered_name@, window_class@),
{
    same_text(lowered_name, "pc_watcher") || same_text(lowered_name, "pc_watcher.exe")
        || same_text(lowered_name, "explorer") || same_text(lowered_name, "explorer.exe")
        || same_text(window_class, "Shell_TrayWnd") || same_text(window_class, "Progman")
        || same_text(window_class, "PCWatcherAlert") || same_text(window_class, "PCWatcherDetails")
        || same_text(window_class, "PCWatcherTray")
}

/// Which heuristic raised an alert.
#[derive(Debug, Clone, Copy, PartialEq, Eq, Structural)]
pub enum AlertKind {
    SuspiciousProcess,
    FocusWithoutClick,
}

/// The alert for an event of `kind` from a process whose lower-cased name is
/// `lowered_name`: the name heuristic first, then the click heuristic.
pub open spec fn alert_for(
    kind: EventType,
    lowered_name: Seq<char>,
    window_class: Seq<char>,
    click_recent: bool,
) -> Option<AlertKind> {
    if kind.is_activation() && names_suspicious(lowered_name) {
        Some(AlertKind::SuspiciousProcess)
    } else if kind is Foreground && !click_recent && !is_allow_listed(lowered_name, window_class) {
        Some(AlertKind::FocusWithoutClick)
    } else {
        None
    }
}

/// Applies both heuristics in order to an event, given the lower-cased
/// process name, the window class and whether a click preceded the event.
pub fn decide_alert(kind: EventType, lowered_name: &str, window_class: &str, click_recent: bool) -> (r:
    Option<AlertKind>)
    ensures
        r == alert_for(kind, lowered_name@, window_class@, click_recent),
{
    let activation = match kind {
        EventType::Foreground | EventType::Shown | EventType::Created => true,
        _ => false,
    };
    if activation && matches_suspicious_pattern(lowered_name) {
        Some(AlertKind::SuspiciousProcess)
    } else if kind == EventType::Foreground && !click_recent && !allow_listed(
        lowered_name,
        window_class,
    ) {
        Some(AlertKind::FocusWithoutClick)
    } else {
        None
    }
}

/// The label handed to the alert display: the process name, marked when no
/// click preceded the focus change.
pub open spec fn alert_label(kind: AlertKind, process_name: Seq<char>) -> Seq<char> {
    match kind {
        AlertKind::SuspiciousProcess => process_name,
        AlertKind::FocusWithoutClick => process_name + " (no click!)"@,
    }
}

pub fn make_alert_label(kind: AlertKind, process_name: &str) -> (r: String)
    ensures
        r@ == alert_label(kind, process_name@),
{
    let mut label = String::from_str(process_name);
    match kind {
        AlertKind::SuspiciousProcess => {},
        AlertKind::FocusWithoutClick => label.append(" (no click!)"),
    }
    label
}

} // verus!
