//! Bookkeeping of the logging sink: session header and footer, the periodic
//! flush, the name of a session's file and which earlier files are pruned.
use vstd::prelude::*;
use vstd::string::*;
use crate::event::LocalTime;
use crate::stamp::{date_clock_text, file_stamp_text, push_date_clock, push_file_stamp};
use crate::text::{dec, push_decimal};

verus! {

/// The writer is flushed after every this many entries.
pub const FLUSH_INTERVAL: u64 = 10;

/// Number of earlier session files that are kept.
pub const KEPT_SESSIONS: usize = 2;

pub open spec fn double_rule() -> Seq<char> {
    "════════════════════════════════════════════════════════════════════════════════"@
}

/// The header written when a session's file is opened.
pub open spec fn header_text(started: LocalTime, host: Seq<char>, user: Seq<char>) -> Seq<char> {
    double_rule() + "\n"@ + "PC Watcher Log started: "@ + date_clock_text(started) + "\n"@
        + "Computer: "@ + host + "\n"@ + "User: "@ + user + "\n"@ + double_rule() + "\n\n"@
}

/// The footer written when the stream of entries ends.
pub open spec fn footer_text(ended: LocalTime, total: nat) -> Seq<char> {
    "\n"@ + double_rule() + "\n"@ + "PC Watcher Log ended: "@ + date_clock_text(ended) + "\n"@
        + "Total entries: "@ + dec(total) + "\n"@ + double_rule() + "\n"@
}

/// The file name of a session started at `started`.
pub open spec fn session_file_text(started: LocalTime) -> Seq<char> {
    "event_"@ + file_stamp_text(started) + ".log"@
}

pub fn session_header(started: &LocalTime, host: &str, user: &str) -> (r: String)
    ensures
        r@ == header_text(*started, host@, user@),
{
    let mut out = String::new();
    out.append("════════════════════════════════════════════════════════════════════════════════");
    out.append("\n");
    out.append("PC Watcher Log started: ");
    push_date_clock(&mut out, started);
    out.append("\n");
    out.append("Computer: ");
    out.append(host);
    out.append("\n");
    out.append("User: ");
    out.append(user);
    out.append("\n");
    out.append("════════════════════════════════════════════════════════════════════════════════");
    out.append("\n\n");
    proof {
        assert(out@ =~= header_text(*started, host@, user@));
    }
    out
}

pub fn session_footer(ended: &LocalTime, total: u64) -> (r: String)
    ensures
        r@ == footer_text(*ended, total as nat),
{
    let mut out = String::new();
    out.append("\n");
    out.append("════════════════════════════════════════════════════════════════════════════════");
    out.append("\n");
    out.append("PC Watcher Log ended: ");
    push_date_clock(&mut out, ended);
    out.append("\n");
    out.append("Total entries: ");
    push_decimal(&mut out, total);
    out.append("\n");
    out.append("════════════════════════════════════════════════════════════════════════════════");
    out.append("\n");
    proof {
        assert(out@ =~= footer_text(*ended, total as nat));
    }
    out
}

pub fn session_file_name(started: &LocalTime) -> (r: String)
    ensures
        r@ == session_file_text(*started),
{
    let mut out = String::from_str("event_");
    push_file_stamp(&mut out, started);
    out.append(".log");
    proof {
        assert(out@ =~= session_file_text(*started));
    }
    out
}

/// Count of entries written in a session.
pub struct SinkState {
    pub entry_count: u64,
}

impl SinkState {
    pub fn new() -> (r: SinkState)
        ensures
            r.entry_count == 0,
    {
        SinkState { entry_count: 0 }
    }

    /// Counts one written entry; returns whether the writer is to be flushed
    /// now, which it is after every tenth entry.
    pub fn record_entry(&mut self) -> (flush: bool)
        requires
            old(self).entry_count < u64::MAX,
        ensures
            final(self).entry_count == old(self).entry_count + 1,
            flush == (final(self).entry_count % FLUSH_INTERVAL == 0),
    {
        self.entry_count = self.entry_count + 1;
        self.entry_count % FLUSH_INTERVAL == 0
    }
}

/// A file found in the log directory: its name and when it was last
/// modified, when that could be read.
#[derive(Debug)]
pub struct LogFile {
    pub name: String,
    pub modified: Option<u64>,
}

/// `a` is strictly later than `b`; an unknown time is earlier than any time.
pub open spec fn later(a: Option<u64>, b: Option<u64>) -> bool {
    match (a, b) {
        (Some(x), Some(y)) => x > y,
        (Some(_), None) => true,
        _ => false,
    }
}

/// `s` begins with `p`.
pub open spec fn starts_with(s: Seq<char>, p: Seq<char>) -> bool {
    p.len() <= s.len() && s.subrange(0, p.len() as int) == p
}

/// File `j` precedes file `i` in the newest-first order of the files with the
/// prefix: it is newer, or as new and listed earlier.
pub open spec fn precedes(files: Seq<LogFile>, prefix: Seq<char>, j: int, i: int) -> bool {
    &&& starts_with(files[j].name@, prefix)
    &&& (later(files[j].modified, files[i].modified) || (files[j].modified == files[i].modified && j
        < i))
}

/// How many of the first `upto` files precede file `i`.
pub open spec fn rank_below(files: Seq<LogFile>, prefix: Seq<char>, i: int, upto: int) -> nat
    decreases upto,
{
    if upto <= 0 {
        0
    } else {
        rank_below(files, prefix, i, upto - 1) + (if precedes(files, prefix, upto - 1, i) {
            1nat
        } else {
            0nat
        })
    }
}

/// File `i` is deleted: it has the prefix and at least `keep` files with the
/// prefix precede it.
pub open spec fn is_pruned(files: Seq<LogFile>, prefix: Seq<char>, keep: nat, i: int) -> bool {
    &&& starts_with(files[i].name@, prefix)
    &&& rank_below(files, prefix, i, files.len() as int) >= keep
}

fn starts_with_text(s: &str, p: &str) -> (r: bool)
    ensures
        r == starts_with(s@, p@),
{
    let n = s.unicode_len();
    let m = p.unicode_len();
    if m > n {
        return false;
    }
    let mut k: usize = 0;
    while k < m
        invariant
            n == s@.len(),
            m == p@.len(),
            m <= n,
            k <= m,
            forall|j: int| 0 <= j < k ==> s@[j] == p@[j],
        decreases m - k,
    {
        if s.get_char(k) != p.get_char(k) {
            proof {
                assert(s@.subrange(0, m as int)[k as int] != p@[k as int]);
            }
            return false;
        }
        k = k + 1;
    }
    proof {
        assert(s@.subrange(0, m as int) =~= p@);
    }
    true
}

fn later_exec(a: Option<u64>, b: Option<u64>) -> (r: bool)
    ensures
        r == later(a, b),
{
    match (a, b) {
        (Some(x), Some(y)) => x > y,
        (Some(_), None) => true,
        _ => false,
    }
}

/// The indices, in ascending order, of the files that a new session deletes:
/// of the files whose names begin with `prefix`, all but the `keep` newest
/// (files as new as each other keep the order in which they are listed).
pub fn files_to_prune(files: &Vec<LogFile>, keep: usize, prefix: &str) -> (r: Vec<usize>)
    ensures
        forall|k: int| 0 <= k < r@.len() ==> r@[k] < files@.len(),
        forall|a: int, b: int| 0 <= a < b < r@.len() ==> r@[a] < r@[b],
        forall|i: int|
            0 <= i < files@.len() ==> (r@.contains(i as usize) <==> is_pruned(
                files@,
                prefix@,
                keep as nat,
                i,
            )),
{
    let n = files.len();
    let mut r: Vec<usize> = Vec::new();
    let mut i: usize = 0;
    while i < n
        invariant
            n == files@.len(),
            i <= n,
            forall|k: int| 0 <= k < r@.len() ==> r@[k] < i,
            forall|a: int, b: int| 0 <= a < b < r@.len() ==> r@[a] < r@[b],
            forall|x: int|
                0 <= x < n ==> (r@.contains(x as usize) <==> (x < i && is_pruned(
                    files@,
                    prefix@,
                    keep as nat,
                    x,
                ))),
        decreases n - i,
    {
        let mut rank: usize = 0;
        let mut j: usize = 0;
        let own = starts_with_text(files[i].name.as_str(), prefix);
        while j < n
            invariant
                n == files@.len(),
                i < n,
                j <= n,
                rank <= j,
                rank == rank_below(files@, prefix@, i as int, j as int),
            decreases n - j,
        {
            let newer = later_exec(files[j].modified, files[i].modified);
            let same = match (files[j].modified, files[i].modified) {
                (Some(x), Some(y)) => x == y,
                (None, None) => true,
                _ => false,
            };
            if starts_with_text(files[j].name.as_str(), prefix) && (newer || (same && j < i)) {
                rank = rank + 1;
            }
            j = j + 1;
        }
        let ghost r_before = r@;
        if own && rank >= keep {
            r.push(i);
        }
        proof {
            assert forall|x: int|
                0 <= x < n implies (r@.contains(x as usize) <==> (x < i + 1 && is_pruned(
                    files@,
                    prefix@,
                    keep as nat,
                    x,
                ))) by {
                if r_before.contains(x as usize) {
                    let w = choose|w: int| 0 <= w < r_before.len() && r_before[w] == x as usize;
                    assert(r@[w] == x as usize);
                }
                if r@.contains(x as usize) && x != i {
                    let w = choose|w: int| 0 <= w < r@.len() && r@[w] == x as usize;
                    assert(w < r_before.len());
                    assert(r_before[w] == x as usize);
                }
                if x == i && own && rank >= keep {
                    assert(r@[r@.len() - 1] == i);
                }
                if x == i && r@.contains(x as usize) {
                    if !(own && rank >= keep) {
                        let w = choose|w: int| 0 <= w < r@.len() && r@[w] == x as usize;
                        assert(r@[w] < i);
                    }
                }
            }
        }
        i = i + 1;
    }
    r
}

} // verus!
