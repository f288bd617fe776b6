//! State of the alert display: its headline, the alert flag and the most
//! recent event lines.
use vstd::prelude::*;
use vstd::string::*;
use crate::entry::{file_text, gui_text, parent_is_process, LogEntry};
use crate::text::{dec, push_decimal};

verus! {

/// Number of event lines the display keeps.
pub const MAX_LOG_ENTRIES: usize = 13;

/// One line of the display's event list, with the full record shown on
/// request.
#[derive(Debug)]
pub struct GuiLogEntry {
    pub text: String,
    pub event_type: String,
    pub details: String,
    pub process_path: String,
}

impl GuiLogEntry {
    /// The display's line for a log record.
    pub fn from_entry(entry: &LogEntry) -> (r: GuiLogEntry)
        ensures
            r.text@ == gui_text(*entry, parent_is_process(*entry)),
            r.event_type@ == entry.event_type@,
            r.details@ == file_text(*entry),
            r.process_path@ == entry.process_path@,
    {
        GuiLogEntry {
            text: entry.format_gui(),
            event_type: entry.event_type.clone(),
            details: entry.format_file(),
            process_path: entry.process_path.clone(),
        }
    }
}

/// The headline while no alert is shown.
pub open spec fn count_headline(count: nat) -> Seq<char> {
    "PC Watcher - "@ + dec(count) + " Events"@
}

/// The headline while an alert is shown.
pub open spec fn alert_headline(label: Seq<char>) -> Seq<char> {
    "!! "@ + label + " !!"@
}

/// The event lines after `line` is added: the oldest leaves when the list
/// is full.
pub open spec fn with_line(lines: Seq<GuiLogEntry>, line: GuiLogEntry) -> Seq<GuiLogEntry> {
    if lines.len() >= MAX_LOG_ENTRIES {
        lines.drop_first().push(line)
    } else {
        lines.push(line)
    }
}

/// What the alert display shows.
pub struct AlertDisplay {
    pub alert_active: bool,
    pub event_count: u64,
    pub message: String,
    pub entries: Vec<GuiLogEntry>,
}

impl AlertDisplay {
    pub open spec fn wf(&self) -> bool {
        self.entries@.len() <= MAX_LOG_ENTRIES
    }

    pub fn new() -> (r: AlertDisplay)
        ensures
            r.wf(),
            !r.alert_active,
            r.event_count == 0,
            r.message@ == "PC Watcher - Waiting..."@,
            r.entries@.len() == 0,
    {
        AlertDisplay {
            alert_active: false,
            event_count: 0,
            message: String::from_str("PC Watcher - Waiting..."),
            entries: Vec::new(),
        }
    }

    fn count_message(count: u64) -> (r: String)
        ensures
            r@ == count_headline(count as nat),
    {
        let mut m = String::from_str("PC Watcher - ");
        push_decimal(&mut m, count);
        m.append(" Events");
        proof {
            assert(m@ =~= count_headline(count as nat));
        }
        m
    }

    /// Counts an event and adds its line; the headline shows the count
    /// unless an alert is shown.
    pub fn add_log_entry(&mut self, line: GuiLogEntry)
        requires
            old(self).wf(),
            old(self).event_count < u64::MAX,
        ensures
            final(self).wf(),
            final(self).event_count == old(self).event_count + 1,
            final(self).alert_active == old(self).alert_active,
            final(self).message@ == (if old(self).alert_active {
                old(self).message@
            } else {
                count_headline(final(self).event_count as nat)
            }),
            final(self).entries@ == with_line(old(self).entries@, line),
    {
        self.event_count = self.event_count + 1;
        if !self.alert_active {
            self.message = AlertDisplay::count_message(self.event_count);
        }
        if self.entries.len() >= MAX_LOG_ENTRIES {
            self.entries.remove(0);
        }
        self.entries.push(line);
        proof {
            assert(self.entries@ =~= with_line(old(self).entries@, line));
        }
    }

    /// Shows an alert for `label`.
    pub fn set_alert(&mut self, label: &str)
        ensures
            final(self).alert_active,
            final(self).message@ == alert_headline(label@),
            final(self).event_count == old(self).event_count,
            final(self).entries == old(self).entries,
    {
        self.alert_active = true;
        let mut m = String::from_str("!! ");
        m.append(label);
        m.append(" !!");
        self.message = m;
    }

    /// Ends the alert; the headline shows the count again.
    pub fn clear_alert(&mut self)
        ensures
            !final(self).alert_active,
            final(self).message@ == count_headline(old(self).event_count as nat),
            final(self).event_count == old(self).event_count,
            final(self).entries == old(self).entries,
    {
        self.alert_active = false;
        self.message = AlertDisplay::count_message(self.event_count);
    }
}

} // verus!
