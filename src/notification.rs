//! Start and stop messages of a monitoring session.
use vstd::prelude::*;
use vstd::string::*;
use crate::heuristics::{suspicious_pattern, suspicious_patterns, PATTERN_COUNT};

verus! {

/// The first `k` patterns, each in quotes, separated by commas.
pub open spec fn quoted_patterns(k: nat) -> Seq<char>
    decreases k,
{
    if k == 0 {
        Seq::empty()
    } else {
        quoted_patterns((k - 1) as nat) + (if k > 1 {
            ", "@
        } else {
            Seq::empty()
        }) + "\""@ + suspicious_patterns()[k - 1] + "\""@
    }
}

/// The lines logged when monitoring starts.
pub open spec fn start_lines() -> Seq<Seq<char>> {
    seq![
        "=== PC Watcher started ==="@,
        "Monitoring window focus events..."@,
        "Alert on: ["@ + quoted_patterns(PATTERN_COUNT as nat) + "]"@,
    ]
}

/// The lines to log when monitoring starts: a banner and the process-name
/// patterns that raise an alert.
pub fn show_start_notification() -> (r: Vec<String>)
    ensures
        r@.len() == 3,
        forall|i: int| 0 <= i < 3 ==> #[trigger] r@[i]@ == start_lines()[i],
{
    let mut list = String::from_str("Alert on: [");
    let mut k: usize = 0;
    while k < PATTERN_COUNT
        invariant
            k <= PATTERN_COUNT,
            list@ == "Alert on: ["@ + quoted_patterns(k as nat),
        decreases PATTERN_COUNT - k,
    {
        if k > 0 {
            list.append(", ");
        }
        list.append("\"");
        list.append(suspicious_pattern(k));
        list.append("\"");
        k = k + 1;
        proof {
            assert(list@ =~= "Alert on: ["@ + quoted_patterns(k as nat));
        }
    }
    list.append("]");
    let mut r: Vec<String> = Vec::new();
    r.push(String::from_str("=== PC Watcher started ==="));
    r.push(String::from_str("Monitoring window focus events..."));
    r.push(list);
    r
}

/// The line to log when monitoring ends.
pub fn show_stop_notification() -> (r: String)
    ensures
        r@ == "=== PC Watcher ended ==="@,
{
    String::from_str("=== PC Watcher ended ===")
}

} // verus!
