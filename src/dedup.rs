//! Suppression of bursts of identical window events.
use vstd::prelude::*;
use crate::event::{EventType, WindowEvent, WindowHandle};

verus! {

/// Events of one window and kind closer than this many milliseconds are one.
pub const DEDUP_INTERVAL_MS: i64 = 100;

/// Number of accepted events that the window remembers.
pub const DEDUP_CAPACITY: usize = 10;

/// What the window remembers of an accepted event.
pub type DedupKey = (WindowHandle, EventType, i64);

pub open spec fn key_of(e: WindowEvent) -> DedupKey {
    (e.hwnd, e.event_type, e.timestamp.epoch_ms)
}

pub open spec fn abs_diff(a: i64, b: i64) -> int {
    if a >= b {
        a - b
    } else {
        b - a
    }
}

/// `e` repeats the remembered event `k`.
pub open spec fn repeats(k: DedupKey, e: DedupKey) -> bool {
    &&& k.0 == e.0
    &&& k.1 == e.1
    &&& abs_diff(e.2, k.2) < DEDUP_INTERVAL_MS
}

/// `e` repeats one of the remembered events.
pub open spec fn is_repeat(remembered: Seq<DedupKey>, e: DedupKey) -> bool {
    exists|i: int| 0 <= i < remembered.len() && repeats(#[trigger] remembered[i], e)
}

/// The remembered events after `e` is accepted: it is appended and the oldest
/// leaves when more than the capacity would stand.
pub open spec fn remember(remembered: Seq<DedupKey>, e: DedupKey) -> Seq<DedupKey> {
    if remembered.len() + 1 > DEDUP_CAPACITY {
        remembered.push(e).drop_first()
    } else {
        remembered.push(e)
    }
}

/// The last accepted events, oldest first.
pub struct DedupWindow {
    entries: Vec<DedupKey>,
}

impl View for DedupWindow {
    type V = Seq<DedupKey>;

    closed spec fn view(&self) -> Seq<DedupKey> {
        self.entries@
    }
}

impl DedupWindow {
    pub open spec fn wf(&self) -> bool {
        self@.len() <= DEDUP_CAPACITY
    }

    pub fn new() -> (r: DedupWindow)
        ensures
            r.wf(),
            r@ == Seq::<DedupKey>::empty(),
    {
        DedupWindow { entries: Vec::new() }
    }

    /// Whether `event` repeats a remembered event.
    pub fn is_duplicate(&self, event: &WindowEvent) -> (r: bool)
        ensures
            r == is_repeat(self@, key_of(*event)),
    {
        let now_ms = event.timestamp.epoch_ms;
        let mut i: usize = 0;
        while i < self.entries.len()
            invariant
                i <= self@.len(),
                now_ms == event.timestamp.epoch_ms,
                forall|j: int| 0 <= j < i ==> !repeats(#[trigger] self@[j], key_of(*event)),
            decreases self@.len() - i,
        {
            let (hwnd, kind, time) = self.entries[i];
            let diff: i128 = now_ms as i128 - time as i128;
            let dist: i128 = if diff < 0 {
                -diff
            } else {
                diff
            };
            assert(dist == abs_diff(now_ms, time));
            let same_kind = kind == event.event_type;
            if hwnd == event.hwnd && same_kind && dist < DEDUP_INTERVAL_MS as i128 {
                assert(repeats(self@[i as int], key_of(*event)));
                return true;
            }
            i = i + 1;
        }
        false
    }

    /// Accepts `event` unless it repeats a remembered event; an accepted event
    /// is remembered. Returns whether it was accepted.
    pub fn accept(&mut self, event: &WindowEvent) -> (r: bool)
        requires
            old(self).wf(),
        ensures
            final(self).wf(),
            r == !is_repeat(old(self)@, key_of(*event)),
            final(self)@ == (if r {
                remember(old(self)@, key_of(*event))
            } else {
                old(self)@
            }),
    {
        if self.is_duplicate(event) {
            return false;
        }
        self.entries.push((event.hwnd, event.event_type, event.timestamp.epoch_ms));
        if self.entries.len() > DEDUP_CAPACITY {
            self.entries.remove(0);
            proof {
                assert(self@ =~= remember(old(self)@, key_of(*event)));
            }
        }
        true
    }
}

/// Two events of one window and kind less than the interval apart: once the
/// first is accepted the second is dropped, whatever the window held before.
/// Two such events at least the interval apart both pass a window that
/// remembers nothing else of that window and kind.
pub proof fn lemma_dedup_pair(remembered: Seq<DedupKey>, first: WindowEvent, second: WindowEvent)
    requires
        remembered.len() <= DEDUP_CAPACITY,
        first.hwnd == second.hwnd,
        first.event_type == second.event_type,
    ensures
        abs_diff(first.timestamp.epoch_ms, second.timestamp.epoch_ms) < DEDUP_INTERVAL_MS ==> is_repeat(
            remember(remembered, key_of(first)),
            key_of(second),
        ),
        abs_diff(first.timestamp.epoch_ms, second.timestamp.epoch_ms) >= DEDUP_INTERVAL_MS
            && !is_repeat(remembered, key_of(second)) ==> !is_repeat(
            remember(remembered, key_of(first)),
            key_of(second),
        ),
        !is_repeat(Seq::<DedupKey>::empty(), key_of(first)),
{
    let after = remember(remembered, key_of(first));
    let last = after.len() - 1;
    assert(after[last] == key_of(first));
    if abs_diff(first.timestamp.epoch_ms, second.timestamp.epoch_ms) < DEDUP_INTERVAL_MS {
        assert(repeats(after[last], key_of(second)));
    }
    if abs_diff(first.timestamp.epoch_ms, second.timestamp.epoch_ms) >= DEDUP_INTERVAL_MS
        && !is_repeat(remembered, key_of(second)) {
        assert forall|i: int| 0 <= i < after.len() implies !repeats(
            #[trigger] after[i],
            key_of(second),
        ) by {
            if i < last {
                let j = if remembered.len() + 1 > DEDUP_CAPACITY {
                    i + 1
                } else {
                    i
                };
                assert(after[i] == remembered[j]);
            }
        }
    }
}

/// The remembered events after each of `accepted` is accepted in turn.
pub open spec fn remember_all(remembered: Seq<DedupKey>, accepted: Seq<DedupKey>) -> Seq<DedupKey>
    decreases accepted.len(),
{
    if accepted.len() == 0 {
        remembered
    } else {
        remember(remember_all(remembered, accepted.drop_last()), accepted.last())
    }
}

/// An event `d` places from the end of a full-enough window stays in it
/// while fewer than the capacity of accepted events follow it.
proof fn lemma_stays_remembered(remembered: Seq<DedupKey>, k: DedupKey, d: int, accepted: Seq<DedupKey>)
    requires
        remembered.len() <= DEDUP_CAPACITY,
        1 <= d <= remembered.len(),
        remembered[remembered.len() - d] == k,
        d + accepted.len() <= DEDUP_CAPACITY,
    ensures
        remember_all(remembered, accepted).len() <= DEDUP_CAPACITY,
        d + accepted.len() <= remember_all(remembered, accepted).len(),
        remember_all(remembered, accepted)[remember_all(remembered, accepted).len() - (d
            + accepted.len())] == k,
    decreases accepted.len(),
{
    if accepted.len() > 0 {
        let rest = accepted.drop_last();
        lemma_stays_remembered(remembered, k, d, rest);
        let r = remember_all(remembered, rest);
        let e = d + rest.len();
        assert(r[r.len() - e] == k);
        assert(r.push(accepted.last())[r.len() - e] == k);
    }
}

/// Two events of one window and kind less than the interval apart, with at
/// most nine other events accepted between them: once the first is accepted
/// the second is dropped, whatever the window held before.
pub proof fn lemma_dedup_across(
    remembered: Seq<DedupKey>,
    first: WindowEvent,
    between: Seq<DedupKey>,
    second: WindowEvent,
)
    requires
        remembered.len() <= DEDUP_CAPACITY,
        between.len() < DEDUP_CAPACITY,
        first.hwnd == second.hwnd,
        first.event_type == second.event_type,
        abs_diff(first.timestamp.epoch_ms, second.timestamp.epoch_ms) < DEDUP_INTERVAL_MS,
    ensures
        is_repeat(remember_all(remember(remembered, key_of(first)), between), key_of(second)),
{
    let w = remember(remembered, key_of(first));
    assert(w[w.len() - 1] == key_of(first));
    lemma_stays_remembered(w, key_of(first), 1, between);
    let r = remember_all(w, between);
    assert(repeats(r[r.len() - (1 + between.len())], key_of(second)));
}

} // verus!
