//! Decisions of the event worker: which events pass, which raise an alert,
//! and the record forwarded to the log.
use vstd::prelude::*;
use crate::dedup::{is_repeat, key_of, remember, DedupKey, DedupWindow};
use crate::entry::LogEntry;
use crate::event::{EventType, WindowEvent};
use crate::heuristics::{
    alert_for, alert_label, click_is_recent, decide_alert, make_alert_label, was_recent_mouse_click,
};
use crate::heuristics::{names_suspicious, suspicious_patterns};
use crate::process::{identity_for, level_for, name_from_path, ProcessInfo};
use crate::text::occurs_at;
use crate::text::{lower_of, lowercase};

verus! {

/// What the worker does with an accepted event: the record for the log and,
/// when a heuristic fired, the label for the alert display and the
/// screenshot request.
#[derive(Debug)]
pub struct WorkerOutput {
    pub entry: LogEntry,
    pub alert: Option<String>,
}

/// The alert label for an event, given the lower-cased process name.
pub open spec fn alert_text(
    event: WindowEvent,
    info: ProcessInfo,
    lowered_name: Seq<char>,
    click_recent: bool,
) -> Option<Seq<char>> {
    match alert_for(event.event_type, lowered_name, info.window_class@, click_recent) {
        Some(k) => Some(alert_label(k, info.process_name@)),
        None => None,
    }
}

/// The record of an event matches the event and its process.
pub open spec fn entry_of(entry: LogEntry, event: WindowEvent, info: ProcessInfo) -> bool {
    &&& entry.timestamp == event.timestamp
    &&& entry.event_type@ == event.event_type.label()
    &&& entry.process_name == info.process_name
    &&& entry.process_id == info.process_id
    &&& entry.process_path == info.process_path
    &&& entry.window_title == info.window_title
    &&& entry.window_class == info.window_class
    &&& entry.command_line == info.command_line
    &&& entry.ancestry == info.ancestry
}

/// The state that the event worker keeps between events.
pub struct EventWorker {
    pub recent: DedupWindow,
}

impl EventWorker {
    pub open spec fn wf(&self) -> bool {
        self.recent.wf()
    }

    pub fn new() -> (r: EventWorker)
        ensures
            r.wf(),
            r.recent@ == Seq::<DedupKey>::empty(),
    {
        EventWorker { recent: DedupWindow::new() }
    }

    /// Whether `event` goes on to resolution: it does unless it repeats a
    /// recently accepted event of the same window and kind.
    pub fn accept(&mut self, event: &WindowEvent) -> (r: bool)
        requires
            old(self).wf(),
        ensures
            final(self).wf(),
            r == !is_repeat(old(self).recent@, key_of(*event)),
            final(self).recent@ == (if r {
                remember(old(self).recent@, key_of(*event))
            } else {
                old(self).recent@
            }),
    {
        self.recent.accept(event)
    }
}

/// The worker's output for an accepted event, given the lower-cased name of
/// its process and whether a click came shortly before it.
pub fn decide(event: &WindowEvent, info: ProcessInfo, lowered_name: &str, click_recent: bool) -> (r:
    WorkerOutput)
    ensures
        entry_of(r.entry, *event, info),
        match r.alert {
            Some(a) => alert_text(*event, info, lowered_name@, click_recent) == Some(a@),
            None => alert_text(*event, info, lowered_name@, click_recent) is None,
        },
{
    let alert = match decide_alert(
        event.event_type,
        lowered_name,
        info.window_class.as_str(),
        click_recent,
    ) {
        Some(kind) => Some(make_alert_label(kind, info.process_name.as_str())),
        None => None,
    };
    WorkerOutput { entry: LogEntry::from_event(event, info), alert }
}

/// The worker's output for an accepted event of a window owned by the
/// process `info`, with the last pointer click at `last_click_ms` and the
/// event handled at `now_ms`.
pub fn process_event(event: &WindowEvent, info: ProcessInfo, now_ms: u64, last_click_ms: u64) -> (r:
    WorkerOutput)
    ensures
        entry_of(r.entry, *event, info),
        match r.alert {
            Some(a) => alert_text(
                *event,
                info,
                lower_of(info.process_name@),
                click_is_recent(now_ms, last_click_ms),
            ) == Some(a@),
            None => alert_text(
                *event,
                info,
                lower_of(info.process_name@),
                click_is_recent(now_ms, last_click_ms),
            ) is None,
        },
{
    let lowered = lowercase(info.process_name.as_str());
    let clicked = was_recent_mouse_click(now_ms, last_click_ms);
    decide(event, info, lowered.as_str(), clicked)
}

/// A window created by a process whose image `path` has the stem
/// "powershell", with a parent `parent_pid` whose image `parent_path` could be
/// read: the process record takes its name and path from `path`, the first
/// ancestry level is the parent with its pid and path, the log record is
/// labelled CREATED, and the name heuristic raises one alert labelled with the
/// process name, whether or not a click came before.
pub proof fn lemma_script_host_creation(
    event: WindowEvent,
    info: ProcessInfo,
    path: Seq<char>,
    parent_pid: u32,
    parent_path: Seq<char>,
    listed: Option<Seq<char>>,
    click_recent: bool,
)
    requires
        event.event_type == EventType::Created,
        name_from_path(path) == "powershell"@,
        info.process_name@ == name_from_path(path),
        parent_pid != 0,
    ensures
        identity_for(Some(path), None) == ("powershell"@, path),
        level_for(Some(parent_pid), Some(parent_path), listed) == (
            name_from_path(parent_path),
            parent_pid,
            parent_path,
        ),
        event.event_type.label() == "CREATED"@,
        alert_text(event, info, "powershell"@, click_recent) == Some("powershell"@),
{
    let name = "powershell"@;
    assert(name.subrange(0, name.len() as int) =~= name);
    assert(occurs_at(name, suspicious_patterns()[0], 0));
    assert(names_suspicious(name));
}

} // verus!
