//! Log records and their renderings for the log file, the console and the
//! event list of the display.
use vstd::prelude::*;
use vstd::string::*;
use crate::event::{LocalTime, WindowEvent};
use crate::process::{AncestorLevel, ProcessInfo};
use crate::stamp::{clock_ms_text, clock_text, date_clock_ms_text, push_clock, push_clock_ms, push_date_clock_ms};
use crate::text::{
    dec, lower_of, lowercase, padded_right, push_decimal, push_padded_right, push_shortened,
    same_text, shortened,
};

verus! {

/// One accepted event with what was known of its process.
#[derive(Debug)]
pub struct LogEntry {
    pub timestamp: LocalTime,
    pub event_type: String,
    pub process_name: String,
    pub process_id: u32,
    pub process_path: String,
    pub window_title: String,
    pub window_class: String,
    pub command_line: Option<String>,
    /// Parent first, then grandparent, then great-grandparent.
    pub ancestry: Vec<AncestorLevel>,
}

/// A path worth showing: not empty and not the access-denied sentinel.
pub open spec fn shows_path(p: Seq<char>) -> bool {
    p.len() > 0 && p != "Access denied"@
}

/// `prefix path` on a line of its own, when the path is worth showing.
pub open spec fn path_line(prefix: Seq<char>, p: Seq<char>) -> Seq<char> {
    if shows_path(p) {
        prefix + p + "\n"@
    } else {
        Seq::empty()
    }
}

/// The line of one ancestry level: label, name and pid.
pub open spec fn level_line(label: Seq<char>, level: AncestorLevel) -> Seq<char> {
    label + level.name@ + " (PID: "@ + dec(level.pid as nat) + ")\n"@
}

/// Level `k` is shown below the parent: it exists, has a pid and a name.
pub open spec fn shows_level(anc: Seq<AncestorLevel>, k: int) -> bool {
    k < anc.len() && anc[k].pid > 0 && anc[k].name@.len() > 0
}

/// The ancestry block of the file rendering: present when the parent has a
/// pid; deeper levels follow when they have a pid and a name.
pub open spec fn hierarchy_text(anc: Seq<AncestorLevel>) -> Seq<char> {
    if anc.len() >= 1 && anc[0].pid > 0 {
        "  ── PROCESS HIERARCHY ──\n"@ + level_line("  ├─ Parent:           "@, anc[0]) + path_line(
            "  │  Path:             "@,
            anc[0].path@,
        ) + (if shows_level(anc, 1) {
            level_line("  ├─ Grandparent:      "@, anc[1]) + path_line(
                "  │  Path:             "@,
                anc[1].path@,
            )
        } else {
            Seq::empty()
        }) + (if shows_level(anc, 2) {
            level_line("  └─ Great-Grandparent: "@, anc[2]) + path_line(
                "     Path:             "@,
                anc[2].path@,
            )
        } else {
            Seq::empty()
        })
    } else {
        Seq::empty()
    }
}

/// The command line, when one is known and not empty.
pub open spec fn command_text(c: Option<String>) -> Seq<char> {
    match c {
        Some(cmd) => if cmd@.len() > 0 {
            "  Command:     "@ + cmd@ + "\n"@
        } else {
            Seq::empty()
        },
        None => Seq::empty(),
    }
}

/// The window title, or a placeholder when it is empty.
pub open spec fn title_or_placeholder(t: Seq<char>) -> Seq<char> {
    if t.len() == 0 {
        "(no title)"@
    } else {
        t
    }
}

pub open spec fn rule_line() -> Seq<char> {
    "────────────────────────────────────────────────────────────────────────────────\n"@
}

/// The multi-line rendering written to the log file.
pub open spec fn file_text(e: LogEntry) -> Seq<char> {
    rule_line() + "["@ + date_clock_ms_text(e.timestamp) + "] ══ "@ + e.event_type@ + " ══\n"@
        + "  Process:     "@ + e.process_name@ + " (PID: "@ + dec(e.process_id as nat) + ")\n"@
        + "  Path:        "@ + e.process_path@ + "\n"@ + "  Title:       "@
        + title_or_placeholder(e.window_title@) + "\n"@ + "  Class:       "@ + e.window_class@
        + "\n"@ + command_text(e.command_line) + hierarchy_text(e.ancestry@)
}

/// The parent's suffix of the console rendering.
pub open spec fn console_parent_text(anc: Seq<AncestorLevel>) -> Seq<char> {
    if anc.len() >= 1 && anc[0].pid > 0 && anc[0].name@.len() > 0 {
        if shows_path(anc[0].path@) {
            " [from: "@ + anc[0].name@ + " ("@ + anc[0].path@ + ")]"@
        } else {
            " [from: "@ + anc[0].name@ + "]"@
        }
    } else {
        Seq::empty()
    }
}

/// The two-line rendering for the console.
pub open spec fn console_text(e: LogEntry) -> Seq<char> {
    "["@ + clock_ms_text(e.timestamp) + "] "@ + padded_right(e.event_type@, 12) + " "@
        + padded_right(e.process_name@, 20) + " "@ + shortened(e.window_title@, 40, 37)
        + "\n                     Path: "@ + e.process_path@ + console_parent_text(e.ancestry@)
}

/// The three-letter tag of an event label for the display.
pub open spec fn short_label(t: Seq<char>) -> Seq<char> {
    if t == "FOCUS"@ {
        "FOC"@
    } else if t == "CREATED"@ {
        "NEW"@
    } else if t == "SHOWN"@ {
        "SHW"@
    } else if t == "MINIMIZED"@ {
        "MIN"@
    } else if t == "RESTORED"@ {
        "RST"@
    } else if t == "Z-ORDER"@ {
        "Z-O"@
    } else if t.len() < 3 {
        t
    } else {
        t.subrange(0, 3)
    }
}

/// The parent's name as the display sees it: empty when there is no level.
pub open spec fn parent_name(anc: Seq<AncestorLevel>) -> Seq<char> {
    if anc.len() >= 1 {
        anc[0].name@
    } else {
        Seq::empty()
    }
}

/// The parent's suffix of the display rendering; `same_as_process` tells
/// whether the parent's name equals the process's name without regard to case.
pub open spec fn gui_parent_text(anc: Seq<AncestorLevel>, same_as_process: bool) -> Seq<char> {
    if parent_name(anc).len() > 0 && parent_name(anc) != "Unknown"@ && !same_as_process {
        " (from "@ + shortened(parent_name(anc), 15, 12) + ")"@
    } else {
        Seq::empty()
    }
}

/// The title part of the display rendering.
pub open spec fn gui_title_text(t: Seq<char>) -> Seq<char> {
    if t.len() > 0 {
        ": "@ + shortened(t, 25, 22)
    } else {
        Seq::empty()
    }
}

/// The one-line rendering for the display's event list.
pub open spec fn gui_text(e: LogEntry, same_as_process: bool) -> Seq<char> {
    clock_text(e.timestamp) + " ["@ + padded_right(short_label(e.event_type@), 3) + "] "@
        + shortened(e.process_name@, 20, 17) + gui_title_text(e.window_title@) + gui_parent_text(
        e.ancestry@,
        same_as_process,
    )
}

/// The parent's name equals the process's name without regard to case.
pub open spec fn parent_is_process(e: LogEntry) -> bool {
    lower_of(parent_name(e.ancestry@)) == lower_of(e.process_name@)
}

fn push_path_line(out: &mut String, prefix: &str, p: &str)
    ensures
        final(out)@ == old(out)@ + path_line(prefix@, p@),
{
    if p.unicode_len() > 0 && !same_text(p, "Access denied") {
        out.append(prefix);
        out.append(p);
        out.append("\n");
        proof {
            assert(final(out)@ =~= old(out)@ + path_line(prefix@, p@));
        }
    } else {
        proof {
            assert(final(out)@ =~= old(out)@ + path_line(prefix@, p@));
        }
    }
}

fn push_level_line(out: &mut String, label: &str, level: &AncestorLevel)
    ensures
        final(out)@ == old(out)@ + level_line(label@, *level),
{
    out.append(label);
    out.append(level.name.as_str());
    out.append(" (PID: ");
    push_decimal(out, level.pid as u64);
    out.append(")\n");
    proof {
        assert(final(out)@ =~= old(out)@ + level_line(label@, *level));
    }
}

fn level_shown(anc: &Vec<AncestorLevel>, k: usize) -> (r: bool)
    ensures
        r == shows_level(anc@, k as int),
{
    k < anc.len() && anc[k].pid > 0 && anc[k].name.as_str().unicode_len() > 0
}

fn push_hierarchy(out: &mut String, anc: &Vec<AncestorLevel>)
    ensures
        final(out)@ == old(out)@ + hierarchy_text(anc@),
{
    if anc.len() >= 1 && anc[0].pid > 0 {
        out.append("  ── PROCESS HIERARCHY ──\n");
        push_level_line(out, "  ├─ Parent:           ", &anc[0]);
        push_path_line(out, "  │  Path:             ", anc[0].path.as_str());
        let ghost mid1 = out@;
        if level_shown(anc, 1) {
            push_level_line(out, "  ├─ Grandparent:      ", &anc[1]);
            push_path_line(out, "  │  Path:             ", anc[1].path.as_str());
        }
        proof {
            assert(out@ =~= mid1 + (if shows_level(anc@, 1) {
                level_line("  ├─ Grandparent:      "@, anc@[1]) + path_line(
                    "  │  Path:             "@,
                    anc@[1].path@,
                )
            } else {
                Seq::empty()
            }));
        }
        let ghost mid2 = out@;
        if level_shown(anc, 2) {
            push_level_line(out, "  └─ Great-Grandparent: ", &anc[2]);
            push_path_line(out, "     Path:             ", anc[2].path.as_str());
        }
        proof {
            assert(out@ =~= mid2 + (if shows_level(anc@, 2) {
                level_line("  └─ Great-Grandparent: "@, anc@[2]) + path_line(
                    "     Path:             "@,
                    anc@[2].path@,
                )
            } else {
                Seq::empty()
            }));
            assert(final(out)@ =~= old(out)@ + hierarchy_text(anc@));
        }
    } else {
        proof {
            assert(final(out)@ =~= old(out)@ + hierarchy_text(anc@));
        }
    }
}

fn push_command(out: &mut String, c: &Option<String>)
    ensures
        final(out)@ == old(out)@ + command_text(*c),
{
    match c {
        Some(cmd) => {
            if cmd.as_str().unicode_len() > 0 {
                out.append("  Command:     ");
                out.append(cmd.as_str());
                out.append("\n");
            }
        },
        None => {},
    }
    proof {
        assert(final(out)@ =~= old(out)@ + command_text(*c));
    }
}

fn push_console_parent(out: &mut String, anc: &Vec<AncestorLevel>)
    ensures
        final(out)@ == old(out)@ + console_parent_text(anc@),
{
    if anc.len() >= 1 && anc[0].pid > 0 && anc[0].name.as_str().unicode_len() > 0 {
        out.append(" [from: ");
        out.append(anc[0].name.as_str());
        let p = anc[0].path.as_str();
        if p.unicode_len() > 0 && !same_text(p, "Access denied") {
            out.append(" (");
            out.append(p);
            out.append(")]");
        } else {
            out.append("]");
        }
    }
    proof {
        assert(final(out)@ =~= old(out)@ + console_parent_text(anc@));
    }
}

fn short_label_of(t: &str) -> (r: String)
    ensures
        r@ == short_label(t@),
{
    if same_text(t, "FOCUS") {
        String::from_str("FOC")
    } else if same_text(t, "CREATED") {
        String::from_str("NEW")
    } else if same_text(t, "SHOWN") {
        String::from_str("SHW")
    } else if same_text(t, "MINIMIZED") {
        String::from_str("MIN")
    } else if same_text(t, "RESTORED") {
        String::from_str("RST")
    } else if same_text(t, "Z-ORDER") {
        String::from_str("Z-O")
    } else if t.unicode_len() < 3 {
        String::from_str(t)
    } else {
        String::from_str(t.substring_char(0, 3))
    }
}

impl LogEntry {
    /// The record of an accepted event and the process that owns its window.
    pub fn from_event(event: &WindowEvent, info: ProcessInfo) -> (r: LogEntry)
        ensures
            r.timestamp == event.timestamp,
            r.event_type@ == event.event_type.label(),
            r.process_name == info.process_name,
            r.process_id == info.process_id,
            r.process_path == info.process_path,
            r.window_title == info.window_title,
            r.window_class == info.window_class,
            r.command_line == info.command_line,
            r.ancestry == info.ancestry,
    {
        LogEntry {
            timestamp: event.timestamp,
            event_type: String::from_str(event.event_type.as_str()),
            process_name: info.process_name,
            process_id: info.process_id,
            process_path: info.process_path,
            window_title: info.window_title,
            window_class: info.window_class,
            command_line: info.command_line,
            ancestry: info.ancestry,
        }
    }

    /// The multi-line rendering written to the log file.
    pub fn format_file(&self) -> (r: String)
        ensures
            r@ == file_text(*self),
    {
        let mut out = String::new();
        out.append(
            "────────────────────────────────────────────────────────────────────────────────\n",
        );
        out.append("[");
        push_date_clock_ms(&mut out, &self.timestamp);
        out.append("] ══ ");
        out.append(self.event_type.as_str());
        out.append(" ══\n");
        out.append("  Process:     ");
        out.append(self.process_name.as_str());
        out.append(" (PID: ");
        push_decimal(&mut out, self.process_id as u64);
        out.append(")\n");
        out.append("  Path:        ");
        out.append(self.process_path.as_str());
        out.append("\n");
        out.append("  Title:       ");
        if self.window_title.as_str().unicode_len() == 0 {
            out.append("(no title)");
        } else {
            out.append(self.window_title.as_str());
        }
        out.append("\n");
        out.append("  Class:       ");
        out.append(self.window_class.as_str());
        out.append("\n");
        let ghost head = out@;
        push_command(&mut out, &self.command_line);
        push_hierarchy(&mut out, &self.ancestry);
        proof {
            assert(out@ =~= head + command_text(self.command_line) + hierarchy_text(self.ancestry@));
            assert(out@ =~= file_text(*self));
        }
        out
    }

    /// The two-line rendering for the console.
    pub fn format_console(&self) -> (r: String)
        ensures
            r@ == console_text(*self),
    {
        let mut out = String::new();
        out.append("[");
        push_clock_ms(&mut out, &self.timestamp);
        out.append("] ");
        push_padded_right(&mut out, self.event_type.as_str(), 12);
        out.append(" ");
        push_padded_right(&mut out, self.process_name.as_str(), 20);
        out.append(" ");
        push_shortened(&mut out, self.window_title.as_str(), 40, 37);
        out.append("\n                     Path: ");
        out.append(self.process_path.as_str());
        let ghost head = out@;
        push_console_parent(&mut out, &self.ancestry);
        proof {
            assert(out@ =~= console_text(*self));
        }
        out
    }

    /// The one-line rendering for the display, given whether the parent's
    /// name equals the process's name without regard to case.
    pub fn gui_line(&self, same_as_process: bool) -> (r: String)
        ensures
            r@ == gui_text(*self, same_as_process),
    {
        let mut out = String::new();
        push_clock(&mut out, &self.timestamp);
        out.append(" [");
        let label = short_label_of(self.event_type.as_str());
        push_padded_right(&mut out, label.as_str(), 3);
        out.append("] ");
        push_shortened(&mut out, self.process_name.as_str(), 20, 17);
        let ghost head = out@;
        if self.window_title.as_str().unicode_len() > 0 {
            out.append(": ");
            push_shortened(&mut out, self.window_title.as_str(), 25, 22);
        }
        proof {
            assert(out@ =~= head + gui_title_text(self.window_title@));
        }
        let ghost mid = out@;
        if self.ancestry.len() >= 1 {
            let parent = self.ancestry[0].name.as_str();
            if parent.unicode_len() > 0 && !same_text(parent, "Unknown") && !same_as_process {
                out.append(" (from ");
                push_shortened(&mut out, parent, 15, 12);
                out.append(")");
            }
        }
        proof {
            assert(out@ =~= mid + gui_parent_text(self.ancestry@, same_as_process));
            assert(out@ =~= gui_text(*self, same_as_process));
        }
        out
    }

    /// The one-line rendering for the display.
    pub fn format_gui(&self) -> (r: String)
        ensures
            r@ == gui_text(*self, parent_is_process(*self)),
    {
        let parent = if self.ancestry.len() >= 1 {
            lowercase(self.ancestry[0].name.as_str())
        } else {
            lowercase("")
        };
        let own = lowercase(self.process_name.as_str());
        let same = same_text(parent.as_str(), own.as_str());
        self.gui_line(same)
    }
}

} // verus!
