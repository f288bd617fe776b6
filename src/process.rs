//! Process identity and ancestry of the process that owns a window.
//!
//! Resolution runs in steps: the caller asks the operating system what a step
//! needs and hands the answers to the functions here, which decide what the
//! record holds and which process to look at next.
use vstd::prelude::*;
use vstd::string::*;

verus! {

/// Deepest ancestry level that is reported.
pub const MAX_ANCESTRY: usize = 3;

/// `c` separates the components of a path.
pub open spec fn is_separator(c: char) -> bool {
    c == '\\' || c == '/'
}

/// Index of the last separator in `p`, or -1.
pub open spec fn last_separator(p: Seq<char>) -> int
    decreases p.len(),
{
    if p.len() == 0 {
        -1
    } else if is_separator(p.last()) {
        p.len() - 1
    } else {
        last_separator(p.drop_last())
    }
}

/// Index of the last dot in `s`, or -1.
pub open spec fn last_dot(s: Seq<char>) -> int
    decreases s.len(),
{
    if s.len() == 0 {
        -1
    } else if s.last() == '.' {
        s.len() - 1
    } else {
        last_dot(s.drop_last())
    }
}

/// The last component of a path.
pub open spec fn file_name_of(p: Seq<char>) -> Seq<char> {
    p.subrange(last_separator(p) + 1, p.len() as int)
}

/// A file name without its extension; a name whose only dot leads keeps it.
pub open spec fn stem_of(name: Seq<char>) -> Seq<char> {
    if last_dot(name) > 0 {
        name.subrange(0, last_dot(name))
    } else {
        name
    }
}

/// The process name shown for an executable path: the file stem, or
/// "Unknown" when there is none.
pub open spec fn name_from_path(path: Seq<char>) -> Seq<char> {
    if stem_of(file_name_of(path)).len() == 0 {
        "Unknown"@
    } else {
        stem_of(file_name_of(path))
    }
}

proof fn lemma_last_separator(p: Seq<char>, i: int)
    requires
        0 <= i <= p.len(),
        forall|k: int| i <= k < p.len() ==> !is_separator(#[trigger] p[k]),
        i == 0 || is_separator(p[i - 1]),
    ensures
        last_separator(p) == i - 1,
    decreases p.len(),
{
    if p.len() > i {
        lemma_last_separator(p.drop_last(), i);
    }
}

proof fn lemma_last_dot(s: Seq<char>, i: int)
    requires
        0 <= i <= s.len(),
        forall|k: int| i <= k < s.len() ==> #[trigger] s[k] != '.',
        i == 0 || s[i - 1] == '.',
    ensures
        last_dot(s) == i - 1,
    decreases s.len(),
{
    if s.len() > i {
        lemma_last_dot(s.drop_last(), i);
    }
}

/// The last component of a path, splitting at both slash kinds.
pub fn file_name(path: &str) -> (r: String)
    ensures
        r@ == file_name_of(path@),
{
    let n = path.unicode_len();
    let mut i: usize = n;
    while i > 0
        invariant
            n == path@.len(),
            i <= n,
            forall|k: int| i <= k < n ==> !is_separator(#[trigger] path@[k]),
        ensures
            i <= n,
            forall|k: int| i <= k < n ==> !is_separator(#[trigger] path@[k]),
            i == 0 || is_separator(path@[i - 1]),
        decreases i,
    {
        let c = path.get_char(i - 1);
        if c == '\\' || c == '/' {
            break;
        }
        i = i - 1;
    }
    proof {
        lemma_last_separator(path@, i as int);
    }
    String::from_str(path.substring_char(i, n))
}

/// A file name without its extension.
pub fn file_stem(name: &str) -> (r: String)
    ensures
        r@ == stem_of(name@),
{
    let n = name.unicode_len();
    let mut i: usize = n;
    while i > 0
        invariant
            n == name@.len(),
            i <= n,
            forall|k: int| i <= k < n ==> #[trigger] name@[k] != '.',
        ensures
            i <= n,
            forall|k: int| i <= k < n ==> #[trigger] name@[k] != '.',
            i == 0 || name@[i - 1] == '.',
        decreases i,
    {
        if name.get_char(i - 1) == '.' {
            break;
        }
        i = i - 1;
    }
    proof {
        lemma_last_dot(name@, i as int);
    }
    if i > 1 {
        String::from_str(name.substring_char(0, i - 1))
    } else {
        proof {
            assert(name@.subrange(0, n as int) =~= name@);
        }
        String::from_str(name)
    }
}

/// The process name for an executable path.
pub fn process_name_from_path(path: &str) -> (r: String)
    ensures
        r@ == name_from_path(path@),
{
    let file = file_name(path);
    let stem = file_stem(file.as_str());
    if stem.unicode_len() == 0 {
        String::from_str("Unknown")
    } else {
        stem
    }
}

/// One row of the operating system's process list.
#[derive(Debug)]
pub struct SnapshotEntry {
    pub pid: u32,
    pub parent_pid: u32,
    pub exe_file: String,
}

/// The first row of `rows` for `pid`, as its parent pid and executable name.
pub open spec fn lookup_row(rows: Seq<SnapshotEntry>, pid: u32) -> Option<(u32, Seq<char>)>
    decreases rows.len(),
{
    if rows.len() == 0 {
        None
    } else if rows[0].pid == pid {
        Some((rows[0].parent_pid, rows[0].exe_file@))
    } else {
        lookup_row(rows.drop_first(), pid)
    }
}

fn find_row(rows: &Vec<SnapshotEntry>, pid: u32) -> (r: Option<usize>)
    ensures
        match r {
            Some(i) => i < rows@.len() && lookup_row(rows@, pid) == Some(
                (rows@[i as int].parent_pid, rows@[i as int].exe_file@),
            ),
            None => lookup_row(rows@, pid) is None,
        },
{
    let n = rows.len();
    let mut i: usize = 0;
    proof {
        assert(rows@.subrange(0, n as int) =~= rows@);
    }
    while i < n
        invariant
            n == rows@.len(),
            i <= n,
            lookup_row(rows@, pid) == lookup_row(rows@.subrange(i as int, n as int), pid),
        decreases n - i,
    {
        proof {
            assert(rows@.subrange(i as int, n as int).drop_first() =~= rows@.subrange(
                i + 1,
                n as int,
            ));
        }
        if rows[i].pid == pid {
            return Some(i);
        }
        i = i + 1;
    }
    None
}

/// The parent pid that the process list records for `pid`.
pub fn parent_pid_of(rows: &Vec<SnapshotEntry>, pid: u32) -> (r: Option<u32>)
    ensures
        r == (match lookup_row(rows@, pid) {
            Some(row) => Some(row.0),
            None => None,
        }),
{
    match find_row(rows, pid) {
        Some(i) => Some(rows[i].parent_pid),
        None => None,
    }
}

/// The process name that the process list records for `pid`: its executable
/// name without extension.
pub fn process_name_from_snapshot(rows: &Vec<SnapshotEntry>, pid: u32) -> (r: Option<String>)
    ensures
        match lookup_row(rows@, pid) {
            Some(row) => r is Some && r->0@ == stem_of(file_name_of(row.1)),
            None => r is None,
        },
{
    match find_row(rows, pid) {
        Some(i) => {
            let file = file_name(rows[i].exe_file.as_str());
            Some(file_stem(file.as_str()))
        },
        None => None,
    }
}

/// One level of a process's ancestry.
#[derive(Debug)]
pub struct AncestorLevel {
    pub name: String,
    pub pid: u32,
    pub path: String,
}

impl Clone for AncestorLevel {
    fn clone(&self) -> (r: Self)
        ensures
            r == *self,
    {
        AncestorLevel { name: self.name.clone(), pid: self.pid, path: self.path.clone() }
    }
}

impl AncestorLevel {
    pub open spec fn view(self) -> (Seq<char>, u32, Seq<char>) {
        (self.name@, self.pid, self.path@)
    }
}

/// The ancestry level for the parent of a process. `parent` is what the
/// process list records as its parent, `opened_path` the executable path of
/// the parent when it could be opened, `listed_name` the parent's name in the
/// process list.
pub open spec fn level_for(
    parent: Option<u32>,
    opened_path: Option<Seq<char>>,
    listed_name: Option<Seq<char>>,
) -> (Seq<char>, u32, Seq<char>) {
    match parent {
        None => ("Unknown"@, 0, Seq::empty()),
        Some(p) => if p == 0 {
            ("System"@, 0, Seq::empty())
        } else {
            match opened_path {
                Some(path) => (name_from_path(path), p, path),
                None => match listed_name {
                    Some(name) => (name, p, "Access denied"@),
                    None => ("Access denied"@, p, Seq::empty()),
                },
            }
        },
    }
}

/// The name that the process list gives `pid`, if it lists it.
pub open spec fn listed_name(rows: Seq<SnapshotEntry>, pid: u32) -> Option<Seq<char>> {
    match lookup_row(rows, pid) {
        Some(row) => Some(stem_of(file_name_of(row.1))),
        None => None,
    }
}

/// The parent of `child` as the process list records it.
pub open spec fn listed_parent(rows: Seq<SnapshotEntry>, child: u32) -> Option<u32> {
    match lookup_row(rows, child) {
        Some(row) => Some(row.0),
        None => None,
    }
}

/// Whether the executable path is read again with query rights alone:
/// only when reading it with full rights failed (`full` is `None`).
pub fn needs_limited_open(full: &Option<String>) -> (r: bool)
    ensures
        r == (full is None),
{
    full.is_none()
}

/// The parent of `child` whose executable path is worth reading: the parent
/// that the process list records, unless there is none or it is pid 0.
pub fn parent_to_open(rows: &Vec<SnapshotEntry>, child: u32) -> (r: Option<u32>)
    ensures
        r == (match listed_parent(rows@, child) {
            Some(p) => if p != 0 {
                Some(p)
            } else {
                None
            },
            None => None,
        }),
{
    match parent_pid_of(rows, child) {
        Some(p) => if p != 0 {
            Some(p)
        } else {
            None
        },
        None => None,
    }
}

/// The ancestry level above `child`. `opened_path` is the executable path of
/// the parent when the parent process could be opened; it is not looked at
/// when the process list has no parent, or parent 0, for `child`.
pub fn ancestor_level(rows: &Vec<SnapshotEntry>, child: u32, opened_path: Option<String>) -> (r:
    AncestorLevel)
    ensures
        r.view() == level_for(
            listed_parent(rows@, child),
            match opened_path {
                Some(p) => Some(p@),
                None => None,
            },
            match listed_parent(rows@, child) {
                Some(p) => listed_name(rows@, p),
                None => None,
            },
        ),
{
    match parent_pid_of(rows, child) {
        None => AncestorLevel {
            name: String::from_str("Unknown"),
            pid: 0,
            path: String::new(),
        },
        Some(p) => {
            if p == 0 {
                AncestorLevel { name: String::from_str("System"), pid: 0, path: String::new() }
            } else {
                match opened_path {
                    Some(path) => {
                        let name = process_name_from_path(path.as_str());
                        AncestorLevel { name, pid: p, path }
                    },
                    None => match process_name_from_snapshot(rows, p) {
                        Some(name) => AncestorLevel {
                            name,
                            pid: p,
                            path: String::from_str("Access denied"),
                        },
                        None => AncestorLevel {
                            name: String::from_str("Access denied"),
                            pid: p,
                            path: String::new(),
                        },
                    },
                }
            }
        },
    }
}

/// What the monitor knows of the process that owns a window.
#[derive(Debug)]
pub struct ProcessInfo {
    pub process_name: String,
    pub process_id: u32,
    pub process_path: String,
    pub window_title: String,
    pub window_class: String,
    pub command_line: Option<String>,
    /// Parent first, then grandparent, then great-grandparent.
    pub ancestry: Vec<AncestorLevel>,
}

/// At most three levels, and a level follows only a level with a pid other
/// than 0.
pub open spec fn ancestry_ok(levels: Seq<AncestorLevel>) -> bool {
    &&& levels.len() <= MAX_ANCESTRY
    &&& forall|k: int| 0 <= k < levels.len() - 1 ==> #[trigger] levels[k].pid != 0
}

/// The executable path and name of a process. `full` is the path read with
/// full query rights (`None` when the process could not be opened so),
/// `limited` the path read with query rights alone.
pub open spec fn identity_for(full: Option<Seq<char>>, limited: Option<Seq<char>>) -> (
    Seq<char>,
    Seq<char>,
) {
    match full {
        Some(path) => (name_from_path(path), path),
        None => match limited {
            Some(path) => if path.len() > 0 {
                (name_from_path(path), path)
            } else {
                ("Access denied"@, "Access denied (elevated privileges required)"@)
            },
            None => ("Access denied"@, "Access denied (elevated privileges required)"@),
        },
    }
}

/// The content of a process record.
pub struct ProcessInfoView {
    pub process_name: Seq<char>,
    pub process_id: u32,
    pub process_path: Seq<char>,
    pub window_title: Seq<char>,
    pub window_class: Seq<char>,
    pub command_line: Option<Seq<char>>,
    pub ancestry: Seq<(Seq<char>, u32, Seq<char>)>,
}

impl View for ProcessInfo {
    type V = ProcessInfoView;

    open spec fn view(&self) -> ProcessInfoView {
        ProcessInfoView {
            process_name: self.process_name@,
            process_id: self.process_id,
            process_path: self.process_path@,
            window_title: self.window_title@,
            window_class: self.window_class@,
            command_line: match self.command_line {
                Some(c) => Some(c@),
                None => None,
            },
            ancestry: self.ancestry@.map_values(|l: AncestorLevel| l.view()),
        }
    }
}

impl Clone for ProcessInfo {
    fn clone(&self) -> (r: Self)
        ensures
            r@ == self@,
            r.ancestry@ == self.ancestry@,
    {
        let mut ancestry: Vec<AncestorLevel> = Vec::new();
        let mut i: usize = 0;
        while i < self.ancestry.len()
            invariant
                i <= self.ancestry@.len(),
                ancestry@ == self.ancestry@.subrange(0, i as int),
            decreases self.ancestry@.len() - i,
        {
            ancestry.push(self.ancestry[i].clone());
            i = i + 1;
            proof {
                assert(ancestry@ =~= self.ancestry@.subrange(0, i as int));
            }
        }
        proof {
            assert(ancestry@ =~= self.ancestry@);
        }
        let command_line = match &self.command_line {
            Some(c) => Some(c.clone()),
            None => None,
        };
        ProcessInfo {
            process_name: self.process_name.clone(),
            process_id: self.process_id,
            process_path: self.process_path.clone(),
            window_title: self.window_title.clone(),
            window_class: self.window_class.clone(),
            command_line,
            ancestry,
        }
    }
}

/// The command line of a process. Reading another process's command line
/// needs interfaces that are not public, so none is reported.
pub fn get_command_line(process_id: u32) -> (r: Option<String>)
    ensures
        r is None,
{
    None
}

impl ProcessInfo {
    /// Ancestry is bounded, and a process without pid has none.
    pub open spec fn wf(self) -> bool {
        &&& ancestry_ok(self.ancestry@)
        &&& self.process_id == 0 ==> self.ancestry@.len() == 0
    }

    /// The process whose parent is to be looked up next, if the walk goes on.
    pub open spec fn next_query(self) -> Option<u32> {
        if self.process_id == 0 || self.ancestry@.len() >= MAX_ANCESTRY {
            None
        } else if self.ancestry@.len() == 0 {
            Some(self.process_id)
        } else if self.ancestry@.last().pid == 0 {
            None
        } else {
            Some(self.ancestry@.last().pid)
        }
    }

    /// The record for a window whose owner is unknown (pid 0).
    pub fn unknown() -> (r: ProcessInfo)
        ensures
            r.wf(),
            r.process_id == 0,
            r.process_name@ == "Unknown"@,
            r.process_path@ == "Unknown"@,
            r.window_title@.len() == 0,
            r.window_class@.len() == 0,
            r.command_line is None,
            r.ancestry@.len() == 0,
    {
        ProcessInfo {
            process_name: String::from_str("Unknown"),
            process_id: 0,
            process_path: String::from_str("Unknown"),
            window_title: String::new(),
            window_class: String::new(),
            command_line: None,
            ancestry: Vec::new(),
        }
    }

    /// The record for process `pid` before its ancestry is walked. A pid of 0
    /// gives the unknown record; otherwise name and path come from the paths
    /// read with full rights (`full`) or, failing that, with query rights
    /// alone (`limited`).
    pub fn identify(
        pid: u32,
        window_title: String,
        window_class: String,
        full: Option<String>,
        limited: Option<String>,
    ) -> (r: ProcessInfo)
        ensures
            r.wf(),
            r.process_id == pid,
            r.ancestry@.len() == 0,
            r.command_line is None,
            pid == 0 ==> r.process_name@ == "Unknown"@ && r.process_path@ == "Unknown"@
                && r.window_title@.len() == 0 && r.window_class@.len() == 0,
            pid != 0 ==> r.window_title == window_title && r.window_class == window_class && (
            r.process_name@, r.process_path@) == identity_for(
                match full {
                    Some(p) => Some(p@),
                    None => None,
                },
                match limited {
                    Some(p) => Some(p@),
                    None => None,
                },
            ),
    {
        if pid == 0 {
            return ProcessInfo::unknown();
        }
        let (process_name, process_path) = match full {
            Some(path) => (process_name_from_path(path.as_str()), path),
            None => match limited {
                Some(path) => {
                    if path.unicode_len() > 0 {
                        (process_name_from_path(path.as_str()), path)
                    } else {
                        (
                            String::from_str("Access denied"),
                            String::from_str("Access denied (elevated privileges required)"),
                        )
                    }
                },
                None => (
                    String::from_str("Access denied"),
                    String::from_str("Access denied (elevated privileges required)"),
                ),
            },
        };
        ProcessInfo {
            process_name,
            process_id: pid,
            process_path,
            window_title,
            window_class,
            command_line: get_command_line(pid),
            ancestry: Vec::new(),
        }
    }

    /// The process whose parent is to be looked up next: the process itself,
    /// then each ancestor in turn, until three levels stand or a level has pid 0.
    pub fn next_ancestor_query(&self) -> (r: Option<u32>)
        ensures
            r == self.next_query(),
    {
        let n = self.ancestry.len();
        if self.process_id == 0 || n >= MAX_ANCESTRY {
            None
        } else if n == 0 {
            Some(self.process_id)
        } else if self.ancestry[n - 1].pid == 0 {
            None
        } else {
            Some(self.ancestry[n - 1].pid)
        }
    }

    /// Appends the next level of the walk.
    pub fn push_ancestor(&mut self, level: AncestorLevel)
        requires
            old(self).wf(),
            old(self).next_query() is Some,
        ensures
            final(self).wf(),
            final(self).ancestry@ == old(self).ancestry@.push(level),
            final(self)@ == (ProcessInfoView {
                ancestry: old(self)@.ancestry.push(level.view()),
                ..old(self)@
            }),
    {
        self.ancestry.push(level);
        proof {
            assert(self@.ancestry =~= old(self)@.ancestry.push(level.view()));
        }
    }

    /// A copy of a cached record with the window's title and class read anew.
    pub fn with_window(&self, window_title: String, window_class: String) -> (r: ProcessInfo)
        ensures
            r@ == (ProcessInfoView { window_title: window_title@, window_class: window_class@, ..self@ }),
            r.ancestry@ == self.ancestry@,
            self.wf() ==> r.wf(),
    {
        let mut copy = self.clone();
        copy.window_title = window_title;
        copy.window_class = window_class;
        copy
    }
}

/// Every record that the resolution steps build keeps its ancestry bounded:
/// at most three levels, and no level after one that is missing or has pid 0.
/// Walking one more step from a well-formed record gives a well-formed record.
pub proof fn lemma_ancestry_bound(info: ProcessInfo, level: AncestorLevel)
    requires
        info.wf(),
    ensures
        info.ancestry@.len() <= MAX_ANCESTRY,
        forall|k: int|
            0 <= k < info.ancestry@.len() && #[trigger] info.ancestry@[k].pid == 0 ==> k
                == info.ancestry@.len() - 1,
        info.next_query() is Some ==> ancestry_ok(info.ancestry@.push(level)),
        info.next_query() is None ==> info.process_id == 0 || info.ancestry@.len()
            == MAX_ANCESTRY || info.ancestry@.last().pid == 0,
{
    if info.next_query() is Some {
        let s = info.ancestry@.push(level);
        assert forall|k: int| 0 <= k < s.len() - 1 implies #[trigger] s[k].pid != 0 by {
            if k < info.ancestry@.len() - 1 {
                assert(info.ancestry@[k].pid != 0);
            } else {
                assert(k == info.ancestry@.len() - 1);
            }
        }
    }
}

} // verus!
