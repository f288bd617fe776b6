//! Time-to-live cache of process records, keyed by pid.
use vstd::prelude::*;
use std::collections::HashMap;
use crate::heuristics::elapsed_ms;
use crate::process::{ProcessInfo, ProcessInfoView};

verus! {

broadcast use vstd::std_specs::hash::group_hash_axioms;

/// A cached record is served for this many milliseconds after it was stored.
pub const CACHE_TTL_MS: u64 = 5000;

/// Stale records are swept once the cache holds more than this many.
pub const CACHE_SWEEP_THRESHOLD: usize = 100;

/// A record stored at `stored_ms` may still be served at `now_ms`.
pub open spec fn is_fresh(stored_ms: u64, now_ms: u64) -> bool {
    elapsed_ms(now_ms, stored_ms) < CACHE_TTL_MS
}

/// The cache content after a sweep at `now_ms`: the fresh records only.
pub open spec fn swept(m: Map<u32, (ProcessInfoView, u64)>, now_ms: u64) -> Map<
    u32,
    (ProcessInfoView, u64),
> {
    m.restrict(m.dom().filter(|k: u32| is_fresh(m[k].1, now_ms)))
}

/// The cache content after `info` is stored at `now_ms` under its pid: the
/// record is inserted or refreshed, and when more than the threshold stand
/// the stale ones are swept. A record without pid is not stored.
pub open spec fn stored(m: Map<u32, (ProcessInfoView, u64)>, info: ProcessInfoView, now_ms: u64) -> Map<
    u32,
    (ProcessInfoView, u64),
> {
    if info.process_id == 0 {
        m
    } else {
        let inserted = m.insert(info.process_id, (info, now_ms));
        if inserted.len() > CACHE_SWEEP_THRESHOLD {
            swept(inserted, now_ms)
        } else {
            inserted
        }
    }
}

/// What a lookup of `pid` at `now_ms` serves: the cached record with the
/// window's current title and class, when a fresh one is cached.
pub open spec fn served(
    m: Map<u32, (ProcessInfoView, u64)>,
    pid: u32,
    now_ms: u64,
    window_title: Seq<char>,
    window_class: Seq<char>,
) -> Option<ProcessInfoView> {
    if m.contains_key(pid) && is_fresh(m[pid].1, now_ms) {
        Some(ProcessInfoView { window_title, window_class, ..m[pid].0 })
    } else {
        None
    }
}

/// Process records with the instant (in milliseconds of a monotonic clock)
/// at which each was stored.
pub struct ProcessCache {
    entries: HashMap<u32, (ProcessInfo, u64)>,
    pids: Vec<u32>,
}

impl View for ProcessCache {
    type V = Map<u32, (ProcessInfoView, u64)>;

    closed spec fn view(&self) -> Map<u32, (ProcessInfoView, u64)> {
        Map::new(
            |k: u32| self.entries@.contains_key(k),
            |k: u32| (self.entries@[k].0@, self.entries@[k].1),
        )
    }
}

impl ProcessCache {
    pub closed spec fn wf(&self) -> bool {
        &&& self.pids@.no_duplicates()
        &&& forall|k: u32| self.entries@.contains_key(k) <==> self.pids@.contains(k)
        &&& forall|k: u32| self.entries@.contains_key(k) ==> #[trigger] self.entries@[k].0.wf()
    }

    pub fn new() -> (r: ProcessCache)
        ensures
            r.wf(),
            r@ == Map::<u32, (ProcessInfoView, u64)>::empty(),
    {
        let r = ProcessCache { entries: HashMap::new(), pids: Vec::new() };
        proof {
            assert(r@ =~= Map::<u32, (ProcessInfoView, u64)>::empty());
        }
        r
    }

    /// The cached record of `pid` with the window's current title and class,
    /// when it was stored less than the time-to-live before `now_ms`.
    pub fn lookup(&self, pid: u32, now_ms: u64, window_title: String, window_class: String) -> (r:
        Option<ProcessInfo>)
        requires
            self.wf(),
        ensures
            match r {
                Some(info) => served(self@, pid, now_ms, window_title@, window_class@) == Some(
                    info@,
                ) && info.wf(),
                None => served(self@, pid, now_ms, window_title@, window_class@) is None,
            },
    {
        match self.entries.get(&pid) {
            Some(entry) => {
                if now_ms.saturating_sub(entry.1) < CACHE_TTL_MS {
                    Some(entry.0.with_window(window_title, window_class))
                } else {
                    None
                }
            },
            None => None,
        }
    }

    /// Stores `info` under its pid at `now_ms`, sweeping stale records when
    /// the cache has grown past the threshold.
    pub fn store(&mut self, info: &ProcessInfo, now_ms: u64)
        requires
            old(self).wf(),
            info.wf(),
        ensures
            final(self).wf(),
            final(self)@ == stored(old(self)@, info@, now_ms),
    {
        let pid = info.process_id;
        if pid == 0 {
            return;
        }
        let had = self.entries.contains_key(&pid);
        self.entries.insert(pid, (info.clone(), now_ms));
        if !had {
            self.pids.push(pid);
        }
        proof {
            assert(self@ =~= old(self)@.insert(pid, (info@, now_ms)));
            lemma_contains_push(old(self).pids@, pid);
            assert forall|k: u32| self.entries@.contains_key(k) <==> self.pids@.contains(k) by {
                assert(old(self).entries@.contains_key(k) <==> old(self).pids@.contains(k));
            }
            if !had {
                assert forall|a: int, b: int| 0 <= a < b < self.pids@.len() implies self.pids@[a]
                    != self.pids@[b] by {
                    if b == self.pids@.len() - 1 {
                        assert(old(self).pids@.contains(self.pids@[a]));
                    }
                }
            }
            assert forall|k: u32| self.entries@.contains_key(k) implies #[trigger] self.entries@[k].0.wf() by {
                if k != pid {
                    assert(old(self).entries@.contains_key(k));
                }
            }
        }
        proof {
            assert(self@.dom() =~= self.entries@.dom());
        }
        if self.entries.len() > CACHE_SWEEP_THRESHOLD {
            self.sweep(now_ms);
        }
    }

    /// Removes the records that are no longer fresh at `now_ms`.
    fn sweep(&mut self, now_ms: u64)
        requires
            old(self).wf(),
        ensures
            final(self).wf(),
            final(self)@ == swept(old(self)@, now_ms),
    {
        let ghost before = self.entries@;
        let mut kept: Vec<u32> = Vec::new();
        let mut i: usize = 0;
        while i < self.pids.len()
            invariant
                old(self).wf(),
                self.pids@ == old(self).pids@,
                before == old(self).entries@,
                i <= self.pids@.len(),
                kept@.no_duplicates(),
                forall|k: u32|
                    #[trigger] self.entries@.contains_key(k) <==> before.contains_key(k) && (
                    !self.pids@.subrange(0, i as int).contains(k) || is_fresh(before[k].1, now_ms)),
                forall|k: u32| self.entries@.contains_key(k) ==> self.entries@[k] == before[k],
                forall|k: u32| before.contains_key(k) ==> #[trigger] before[k].0.wf(),
                forall|k: u32|
                    #[trigger] kept@.contains(k) <==> self.pids@.subrange(0, i as int).contains(k)
                        && is_fresh(before[k].1, now_ms),
            decreases self.pids@.len() - i,
        {
            let pid = self.pids[i];
            let ghost done = self.pids@.subrange(0, i as int);
            let ghost kept_before = kept@;
            let ghost entries_before = self.entries@;
            proof {
                assert(self.pids@.subrange(0, i + 1) =~= done.push(pid));
                lemma_contains_push(done, pid);
                assert(old(self).pids@.contains(pid)) by {
                    assert(self.pids@[i as int] == pid);
                }
                assert(!done.contains(pid)) by {
                    if done.contains(pid) {
                        let j = choose|j: int| 0 <= j < i && done[j] == pid;
                        assert(self.pids@[j] == self.pids@[i as int]);
                    }
                }
            }
            let fresh = match self.entries.get(&pid) {
                Some(entry) => now_ms.saturating_sub(entry.1) < CACHE_TTL_MS,
                None => false,
            };
            assert(fresh == is_fresh(before[pid].1, now_ms));
            if fresh {
                kept.push(pid);
                proof {
                    lemma_contains_push(kept_before, pid);
                    assert forall|a: int, b: int| 0 <= a < b < kept@.len() implies kept@[a]
                        != kept@[b] by {
                        if b == kept@.len() - 1 {
                            assert(kept_before.contains(kept@[a]));
                        }
                    }
                }
            } else {
                self.entries.remove(&pid);
            }
            i = i + 1;
            proof {
                assert forall|k: u32|
                    #[trigger] self.entries@.contains_key(k) <==> before.contains_key(k) && (
                    !self.pids@.subrange(0, i as int).contains(k) || is_fresh(before[k].1, now_ms)) by {
                    assert(entries_before.contains_key(k) <==> before.contains_key(k) && (
                        !done.contains(k) || is_fresh(before[k].1, now_ms)));
                }
            }
        }
        proof {
            assert(self.pids@.subrange(0, i as int) =~= self.pids@);
        }
        self.pids = kept;
        proof {
            assert forall|k: u32| self.entries@.contains_key(k) <==> self.pids@.contains(k) by {
                assert(before.contains_key(k) <==> old(self).pids@.contains(k));
            }
            assert forall|k: u32| self.entries@.contains_key(k) implies #[trigger] self.entries@[k].0.wf() by {
                assert(self.entries@[k] == before[k]);
            }
            assert(self@ =~= swept(old(self)@, now_ms));
        }
    }
}

proof fn lemma_contains_push<A>(s: Seq<A>, x: A)
    ensures
        forall|k: A| #[trigger] s.push(x).contains(k) <==> s.contains(k) || k == x,
{
    assert forall|k: A| #[trigger] s.push(x).contains(k) <==> s.contains(k) || k == x by {
        if s.contains(k) {
            let j = choose|j: int| 0 <= j < s.len() && s[j] == k;
            assert(s.push(x)[j] == k);
        }
        if s.push(x).contains(k) && k != x {
            let j = choose|j: int| 0 <= j < s.push(x).len() && s.push(x)[j] == k;
            assert(s[j] == k);
        }
        if k == x {
            assert(s.push(x)[s.len() as int] == x);
        }
    }
}

/// A pid asked for twice within the time-to-live, with its record stored at
/// the first request, is served the same name, path, command line and
/// ancestry on the second; only the window title and class are read anew.
pub proof fn lemma_cache_freshness(
    m: Map<u32, (ProcessInfoView, u64)>,
    info: ProcessInfoView,
    first_ms: u64,
    second_ms: u64,
    window_title: Seq<char>,
    window_class: Seq<char>,
)
    requires
        info.process_id != 0,
        elapsed_ms(second_ms, first_ms) < CACHE_TTL_MS,
    ensures
        served(stored(m, info, first_ms), info.process_id, second_ms, window_title, window_class)
            == Some(ProcessInfoView { window_title, window_class, ..info }),
{
    let inserted = m.insert(info.process_id, (info, first_ms));
    assert(is_fresh(first_ms, first_ms));
    if inserted.len() > CACHE_SWEEP_THRESHOLD {
        assert(swept(inserted, first_ms).contains_key(info.process_id));
    }
}

} // verus!
