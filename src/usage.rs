//! Per-endpoint usage counting.
use vstd::prelude::*;

verus! {

/// The number of times `key` has been counted in `m` (zero when absent).
pub open spec fn count_in(m: Map<Seq<char>, nat>, key: Seq<char>) -> nat {
    if m.contains_key(key) {
        m[key]
    } else {
        0
    }
}

/// `m` after one more call of `key`.
pub open spec fn bump(m: Map<Seq<char>, nat>, key: Seq<char>) -> Map<Seq<char>, nat> {
    m.insert(key, count_in(m, key) + 1)
}

/// `m` after each call of `calls`, in order.
pub open spec fn after_calls(m: Map<Seq<char>, nat>, calls: Seq<Seq<char>>) -> Map<
    Seq<char>,
    nat,
>
    decreases calls.len(),
{
    if calls.len() == 0 {
        m
    } else {
        bump(after_calls(m, calls.drop_last()), calls.last())
    }
}

/// How many of `calls` are calls of `key`.
pub open spec fn occurrences(calls: Seq<Seq<char>>, key: Seq<char>) -> nat
    decreases calls.len(),
{
    if calls.len() == 0 {
        0
    } else {
        occurrences(calls.drop_last(), key) + if calls.last() == key {
            1nat
        } else {
            0nat
        }
    }
}

/// `entries` lists each key of `m` exactly once, with its count.
pub open spec fn lists_exactly(entries: Seq<(String, u64)>, m: Map<Seq<char>, nat>) -> bool {
    &&& forall|i: int|
        0 <= i < entries.len() ==> #[trigger] m.contains_key(entries[i].0@) && m[entries[i].0@]
            == entries[i].1 as nat
    &&& forall|k: Seq<char>| #[trigger]
        m.contains_key(k) ==> exists|i: int| 0 <= i < entries.len() && entries[i].0@ == k
    &&& forall|i: int, j: int|
        0 <= i < entries.len() && 0 <= j < entries.len() && i != j ==> entries[i].0@
            != entries[j].0@
}

/// Usage counts by endpoint name. Shared between request handlers behind a
/// lock; every increment is applied whole.
pub struct UsageStats {
    entries: Vec<(String, u64)>,
    counts: Ghost<Map<Seq<char>, nat>>,
}

impl View for UsageStats {
    type V = Map<Seq<char>, nat>;

    closed spec fn view(&self) -> Map<Seq<char>, nat> {
        self.counts@
    }
}

impl UsageStats {
    pub closed spec fn wf(&self) -> bool {
        lists_exactly(self.entries@, self.counts@)
    }

    /// Counts as they stand at process start: nothing has been called.
    pub fn new() -> (r: UsageStats)
        ensures
            r.wf(),
            r@ == Map::<Seq<char>, nat>::empty(),
    {
        UsageStats { entries: Vec::new(), counts: Ghost(Map::empty()) }
    }

    /// The count of `endpoint`, zero when it was never called.
    pub fn count(&self, endpoint: &str) -> (r: u64)
        requires
            self.wf(),
        ensures
            r as nat == count_in(self@, endpoint@),
    {
        let key = String::from_str(endpoint);
        let mut i: usize = 0;
        while i < self.entries.len()
            invariant
                self.wf(),
                key@ == endpoint@,
                0 <= i <= self.entries.len(),
                forall|j: int| 0 <= j < i ==> self.entries@[j].0@ != key@,
            decreases self.entries.len() - i,
        {
            if self.entries[i].0 == key {
                return self.entries[i].1;
            }
            i = i + 1;
        }
        0
    }
}

/// Once `key` is listed, and every name listed before keeps its place,
/// every key of `m` after one more call of `key` is listed.
proof fn lemma_keys_still_listed(
    prev: Seq<(String, u64)>,
    entries: Seq<(String, u64)>,
    m: Map<Seq<char>, nat>,
    key: Seq<char>,
)
    requires
        forall|k: Seq<char>| #[trigger]
            m.contains_key(k) ==> exists|i: int| 0 <= i < prev.len() && prev[i].0@ == k,
        prev.len() <= entries.len(),
        forall|i: int| 0 <= i < prev.len() ==> #[trigger] entries[i].0@ == prev[i].0@,
        exists|i: int| 0 <= i < entries.len() && entries[i].0@ == key,
    ensures
        forall|k: Seq<char>| #[trigger]
            bump(m, key).contains_key(k) ==> exists|i: int|
                0 <= i < entries.len() && entries[i].0@ == k,
{
    assert forall|k: Seq<char>| #[trigger] bump(m, key).contains_key(k) implies exists|i: int|
        0 <= i < entries.len() && entries[i].0@ == k by {
        if k != key {
            let i = choose|i: int| 0 <= i < prev.len() && prev[i].0@ == k;
            assert(entries[i].0@ == k);
        }
    }
}

/// Counts one more call of `endpoint`, creating its entry at one.
pub fn increment(stats: &mut UsageStats, endpoint: &str)
    requires
        old(stats).wf(),
        count_in(old(stats)@, endpoint@) < u64::MAX,
    ensures
        final(stats).wf(),
        final(stats)@ == bump(old(stats)@, endpoint@),
{
    let key = String::from_str(endpoint);
    let mut i: usize = 0;
    while i < stats.entries.len()
        invariant
            stats.wf(),
            stats@ == old(stats)@,
            key@ == endpoint@,
            count_in(stats@, endpoint@) < u64::MAX,
            0 <= i <= stats.entries.len(),
            forall|j: int| 0 <= j < i ==> stats.entries@[j].0@ != key@,
        decreases stats.entries.len() - i,
    {
        if stats.entries[i].0 == key {
            let ghost prev = stats.entries@;
            let n = stats.entries[i].1 + 1;
            let name = stats.entries[i].0.clone();
            stats.entries.set(i, (name, n));
            stats.counts = Ghost(bump(stats.counts@, endpoint@));
            proof {
                assert(stats.entries@[i as int].0@ == endpoint@);
                lemma_keys_still_listed(prev, stats.entries@, old(stats)@, endpoint@);
            }
            return;
        }
        i = i + 1;
    }
    assert(!stats@.contains_key(endpoint@));
    let ghost prev = stats.entries@;
    stats.entries.push((key, 1));
    stats.counts = Ghost(bump(stats.counts@, endpoint@));
    proof {
        assert(stats.entries@[prev.len() as int].0@ == endpoint@);
        lemma_keys_still_listed(prev, stats.entries@, old(stats)@, endpoint@);
    }
}

/// A copy of every count, each endpoint listed once.
pub fn get_stats(stats: &UsageStats) -> (r: Vec<(String, u64)>)
    requires
        stats.wf(),
    ensures
        lists_exactly(r@, stats@),
{
    let mut r: Vec<(String, u64)> = Vec::new();
    let mut i: usize = 0;
    while i < stats.entries.len()
        invariant
            stats.wf(),
            0 <= i <= stats.entries.len(),
            r@.len() == i,
            forall|j: int| 0 <= j < i ==> #[trigger] r@[j].0@ == stats.entries@[j].0@ && r@[j].1
                == stats.entries@[j].1,
        decreases stats.entries.len() - i,
    {
        let name = stats.entries[i].0.clone();
        r.push((name, stats.entries[i].1));
        i = i + 1;
    }
    assert forall|k: Seq<char>| #[trigger]
        stats@.contains_key(k) implies exists|j: int| 0 <= j < r@.len() && r@[j].0@ == k by {
        let j = choose|j: int| 0 <= j < stats.entries@.len() && stats.entries@[j].0@ == k;
        assert(r@[j].0@ == k);
    }
    r
}

/// However the calls of several concurrent handlers are serialised, each
/// endpoint's count grows by exactly the number of its calls: no update is lost.
pub proof fn lemma_calls_counted(m: Map<Seq<char>, nat>, calls: Seq<Seq<char>>, key: Seq<char>)
    ensures
        count_in(after_calls(m, calls), key) == count_in(m, key) + occurrences(calls, key),
    decreases calls.len(),
{
    if calls.len() > 0 {
        lemma_calls_counted(m, calls.drop_last(), key);
    }
}

} // verus!
