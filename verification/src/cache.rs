//! The in-memory calendar cache: date key to published status.
//!
//! The cache maps a date's numeric key to its tariff status. It never holds
//! `NonDefini`: a batch insert drops entries with that status, so a cached
//! date always answers with a published value. Entries are only ever added,
//! for the life of the process.

use std::collections::HashMap;
use vstd::prelude::*;

use crate::date::Date;
use crate::status::TempoStatus;

verus! {

broadcast use vstd::std_specs::hash::group_hash_axioms;

/// One `(date, status)` pair, as handed back by the upstream provider.
#[derive(Clone, Copy, Debug, PartialEq, Eq, Structural)]
pub struct CalendarEntry {
    pub date: Date,
    pub status: TempoStatus,
}

/// The cache a batch insert leaves behind: entries are applied in order, and
/// an entry whose status is not concrete changes nothing.
pub open spec fn merged(m: Map<u64, TempoStatus>, entries: Seq<CalendarEntry>) -> Map<
    u64,
    TempoStatus,
>
    decreases entries.len(),
{
    if entries.len() == 0 {
        m
    } else {
        let rest = merged(m, entries.drop_last());
        let e = entries.last();
        if e.status.is_concrete() {
            rest.insert(e.date.spec_key(), e.status)
        } else {
            rest
        }
    }
}

/// The date-keyed status store. Its view is the mathematical map from date
/// key to status; every value in it is a published (concrete) status.
pub struct TempoCache {
    map: HashMap<u64, TempoStatus>,
}

impl View for TempoCache {
    type V = Map<u64, TempoStatus>;

    closed spec fn view(&self) -> Map<u64, TempoStatus> {
        self.map@
    }
}

impl TempoCache {
    /// A cached status is always one the provider published.
    #[verifier::type_invariant]
    spec fn inv(self) -> bool {
        forall|k: u64| self.map@.contains_key(k) ==> (#[trigger] self.map@[k]).is_concrete()
    }

    /// Creates the empty cache.
    pub fn new() -> (r: TempoCache)
        ensures
            r@ == Map::<u64, TempoStatus>::empty(),
    {
        TempoCache { map: HashMap::new() }
    }

    /// Returns the cached status of `date`, or `None` on a miss. A hit is
    /// never `NonDefini`.
    pub fn lookup(&self, date: &Date) -> (r: Option<TempoStatus>)
        ensures
            r == (if self@.contains_key(date.spec_key()) {
                Some(self@[date.spec_key()])
            } else {
                None::<TempoStatus>
            }),
            r matches Some(s) ==> s.is_concrete(),
    {
        proof {
            use_type_invariant(&*self);
        }
        match self.map.get(&date.key()) {
            Some(s) => Some(*s),
            None => None,
        }
    }

    /// Applies a batch of fetched entries: each entry with a concrete status
    /// is inserted under its date's key, in order; the others are dropped.
    pub fn insert_many(&mut self, entries: &Vec<CalendarEntry>)
        ensures
            final(self)@ == merged(old(self)@, entries@),
    {
        proof {
            use_type_invariant(&*self);
        }
        let mut m: HashMap<u64, TempoStatus> = HashMap::new();
        std::mem::swap(&mut m, &mut self.map);
        let n = entries.len();
        let mut i: usize = 0;
        while i < n
            invariant
                n == entries@.len(),
                i <= n,
                m@ == merged(old(self)@, entries@.subrange(0, i as int)),
                forall|k: u64| m@.contains_key(k) ==> (#[trigger] m@[k]).is_concrete(),
            decreases n - i,
        {
            let e = entries[i];
            match e.status {
                TempoStatus::NonDefini => {},
                _ => {
                    m.insert(e.date.key(), e.status);
                },
            }
            proof {
                assert(entries@.subrange(0, i + 1 as int).drop_last() =~= entries@.subrange(
                    0,
                    i as int,
                ));
                assert(entries@.subrange(0, i + 1 as int).last() == entries@[i as int]);
            }
            i = i + 1;
        }
        proof {
            assert(entries@.subrange(0, n as int) =~= entries@);
        }
        self.map = m;
    }
}

/// A batch insert only ever adds or overwrites keys with concrete statuses:
/// for a key that no concrete entry in the batch names, the cache answers
/// afterwards exactly as it did before. In particular, entries whose status
/// is `NonDefini` change nothing.
pub proof fn lemma_merged_untouched_key(
    m: Map<u64, TempoStatus>,
    entries: Seq<CalendarEntry>,
    k: u64,
)
    requires
        forall|i: int|
            0 <= i < entries.len() && (#[trigger] entries[i]).date.spec_key() == k
                ==> !entries[i].status.is_concrete(),
    ensures
        merged(m, entries).contains_key(k) == m.contains_key(k),
        m.contains_key(k) ==> merged(m, entries)[k] == m[k],
    decreases entries.len(),
{
    if entries.len() > 0 {
        lemma_merged_untouched_key(m, entries.drop_last(), k);
    }
}

/// Round trip through the cache: after a batch insert, a date whose last
/// concrete entry in the batch is `entries[i]` is cached with exactly that
/// entry's status (and `lookup` hands it back).
pub proof fn lemma_merged_round_trip(m: Map<u64, TempoStatus>, entries: Seq<CalendarEntry>, i: int)
    requires
        0 <= i < entries.len(),
        entries[i].status.is_concrete(),
        forall|j: int|
            i < j < entries.len() ==> (#[trigger] entries[j]).date.spec_key()
                != entries[i].date.spec_key(),
    ensures
        merged(m, entries).contains_key(entries[i].date.spec_key()),
        merged(m, entries)[entries[i].date.spec_key()] == entries[i].status,
    decreases entries.len(),
{
    if i == entries.len() - 1 {
    } else {
        lemma_merged_round_trip(m, entries.drop_last(), i);
    }
}

/// When some entry of a batch names a key and every entry naming that key
/// carries the same concrete status, the batch caches exactly that status
/// under the key.
pub proof fn lemma_merged_uniform_key(
    m: Map<u64, TempoStatus>,
    entries: Seq<CalendarEntry>,
    i: int,
    s: TempoStatus,
)
    requires
        0 <= i < entries.len(),
        s.is_concrete(),
        forall|j: int|
            0 <= j < entries.len() && (#[trigger] entries[j]).date.spec_key()
                == entries[i].date.spec_key() ==> entries[j].status == s,
    ensures
        merged(m, entries).contains_key(entries[i].date.spec_key()),
        merged(m, entries)[entries[i].date.spec_key()] == s,
    decreases entries.len(),
{
    if i < entries.len() - 1 {
        assert(forall|j: int|
            0 <= j < entries.drop_last().len() ==> #[trigger] entries.drop_last()[j]
                == entries[j]);
        lemma_merged_uniform_key(m, entries.drop_last(), i, s);
    }
}

/// A batch insert never removes a key: what is cached stays cached.
pub proof fn lemma_merged_monotonic(m: Map<u64, TempoStatus>, entries: Seq<CalendarEntry>, k: u64)
    requires
        m.contains_key(k),
    ensures
        merged(m, entries).contains_key(k),
    decreases entries.len(),
{
    if entries.len() > 0 {
        lemma_merged_monotonic(m, entries.drop_last(), k);
    }
}

} // verus!
