//! The schedule of pending stream entries that wait to be processed again.
use vstd::prelude::*;

use crate::clock::MonotonicClock;
use crate::assoc::{
    assoc_insert, assoc_remove, assoc_view, key_position, keys_distinct, lemma_assoc_empty, lemma_assoc_entries,
    lemma_assoc_view_at,
};

verus! {

/// A scheduled retry: the response to complete, and when, in nanoseconds on the
/// scheduler's clock.
pub struct PendingRetryEntry {
    pub response_id: String,
    pub retry_at: u128,
}

/// Scheduled retries, each under the id of its stream entry.
pub struct PendingRetryScheduler {
    entries: Vec<(String, PendingRetryEntry)>,
    clock: MonotonicClock,
    latest_reading: u128,
}

impl View for PendingRetryScheduler {
    type V = Map<Seq<char>, PendingRetryEntry>;

    /// The scheduled retries, by stream id.
    closed spec fn view(&self) -> Map<Seq<char>, PendingRetryEntry> {
        assoc_view(self.entries@)
    }
}

/// The time of a retry scheduled at `now` with a backoff of `backoff_secs` seconds, in
/// nanoseconds on the scheduler's clock: their sum, or the clock's last value where the
/// sum passes it.
pub open spec fn retry_time(now: u128, backoff_secs: u64) -> u128 {
    let t = now + backoff_secs * 1_000_000_000;
    if t > u128::MAX {
        u128::MAX
    } else {
        t as u128
    }
}

/// The stream ids among `m` whose retry is due at `now`.
pub open spec fn is_due(m: Map<Seq<char>, PendingRetryEntry>, stream_id: Seq<char>, now: u128) -> bool {
    m.contains_key(stream_id) && m[stream_id].retry_at <= now
}

/// `ids` are exactly the stream ids of `m` whose retry is due at `now`, each once.
pub open spec fn are_due_ids(ids: Seq<String>, m: Map<Seq<char>, PendingRetryEntry>, now: u128) -> bool {
    &&& forall|i: int| 0 <= i < ids.len() ==> is_due(m, #[trigger] ids[i]@, now)
    &&& forall|k: Seq<char>| #[trigger] is_due(m, k, now) ==> exists|i: int| 0 <= i < ids.len() && #[trigger] ids[i]@ == k
    &&& forall|i: int, j: int| 0 <= i < ids.len() && 0 <= j < ids.len() && i != j ==> #[trigger] ids[i]@ != #[trigger] ids[j]@
}

impl PendingRetryScheduler {
    #[verifier::type_invariant]
    spec fn distinct_ids(self) -> bool {
        keys_distinct(self.entries@)
    }

    /// An empty schedule with its clock started now.
    pub fn new() -> (s: PendingRetryScheduler)
        ensures
            s@ == Map::<Seq<char>, PendingRetryEntry>::empty(),
            s@.dom().finite(),
            s.last_reading() == 0,
    {
        let s = PendingRetryScheduler { entries: Vec::new(), clock: MonotonicClock::start(), latest_reading: 0 };
        proof {
            lemma_assoc_empty::<PendingRetryEntry>();
            assert(s.entries@ =~= Seq::<(String, PendingRetryEntry)>::empty());
        }
        s
    }

    /// The scheduler clock's latest reading, in nanoseconds since the schedule was made.
    pub closed spec fn last_reading(&self) -> u128 {
        self.latest_reading
    }

    /// Reads the clock, keeping its latest reading so that none comes out earlier than
    /// one before.
    fn read_clock(&mut self) -> (n: u128)
        ensures
            n >= old(self).last_reading(),
            final(self).last_reading() == n,
            final(self).entries == old(self).entries,
    {
        proof {
            use_type_invariant(&*self);
        }
        let measured = self.clock.elapsed_nanos();
        let n = if measured < self.latest_reading {
            self.latest_reading
        } else {
            measured
        };
        self.latest_reading = n;
        n
    }

    /// The scheduler's clock: nanoseconds since the schedule was made, no fewer than any
    /// earlier reading; the schedule itself is left as it was.
    pub fn now(&mut self) -> (t: u128)
        ensures
            t >= old(self).last_reading(),
            final(self).last_reading() == t,
            final(self)@ == old(self)@,
    {
        self.read_clock()
    }

    /// The response that the retry scheduled under `stream_id` completes.
    pub fn response_id_of(&self, stream_id: &str) -> (r: Option<String>)
        ensures
            match r {
                Some(id) => self@.contains_key(stream_id@) && id == self@[stream_id@].response_id,
                None => !self@.contains_key(stream_id@),
            },
    {
        proof {
            use_type_invariant(self);
        }
        match key_position(&self.entries, stream_id) {
            Some(i) => Some(self.entries[i].1.response_id.clone()),
            None => None,
        }
    }

    /// Schedules the retry of `stream_id` at `retry_at`, replacing any retry it had.
    pub fn schedule_at(&mut self, stream_id: String, response_id: String, retry_at: u128)
        ensures
            final(self)@ == old(self)@.insert(stream_id@, (PendingRetryEntry { response_id, retry_at })),
            final(self)@.dom().finite(),
            final(self).last_reading() == old(self).last_reading(),
    {
        proof {
            use_type_invariant(&*self);
        }
        let mut entries: Vec<(String, PendingRetryEntry)> = Vec::new();
        std::mem::swap(&mut entries, &mut self.entries);
        assoc_insert(&mut entries, stream_id, PendingRetryEntry { response_id, retry_at });
        proof {
            lemma_assoc_entries(entries@);
        }
        self.entries = entries;
    }

    /// Schedules the retry of `stream_id` for `backoff_secs` seconds after `now`.
    pub fn schedule_after(&mut self, stream_id: String, response_id: String, now: u128, backoff_secs: u64)
        ensures
            final(self)@ == old(self)@.insert(
                stream_id@,
                (PendingRetryEntry { response_id, retry_at: retry_time(now, backoff_secs) }),
            ),
            final(self)@.dom().finite(),
            final(self).last_reading() == old(self).last_reading(),
    {
        assert((backoff_secs as int) * 1_000_000_000 <= u128::MAX) by (nonlinear_arith)
            requires
                backoff_secs <= u64::MAX,
        ;
        let backoff_nanos: u128 = (backoff_secs as u128) * 1_000_000_000;
        let retry_at = now.saturating_add(backoff_nanos);
        self.schedule_at(stream_id, response_id, retry_at);
    }

    /// Schedules the retry of `stream_id` for `backoff_secs` seconds from now on the
    /// scheduler's clock: the clock is read, no earlier than any reading before, and the
    /// retry comes due `backoff_secs` seconds after that reading.
    pub fn schedule(&mut self, stream_id: String, response_id: String, backoff_secs: u64)
        ensures
            exists|now: u128|
                final(self)@ == old(self)@.insert(
                    stream_id@,
                    (PendingRetryEntry { response_id, retry_at: retry_time(now, backoff_secs) }),
                ),
            final(self)@.dom().finite(),
            final(self).last_reading() >= old(self).last_reading(),
            final(self)@ == old(self)@.insert(
                stream_id@,
                (PendingRetryEntry { response_id, retry_at: retry_time(final(self).last_reading(), backoff_secs) }),
            ),
    {
        let now = self.read_clock();
        self.schedule_after(stream_id, response_id, now, backoff_secs);
    }

    /// Drops the retry scheduled under `stream_id`.
    pub fn remove(&mut self, stream_id: &str)
        ensures
            final(self)@ == old(self)@.remove(stream_id@),
            final(self)@.dom().finite(),
            final(self).last_reading() == old(self).last_reading(),
    {
        proof {
            use_type_invariant(&*self);
        }
        let mut entries: Vec<(String, PendingRetryEntry)> = Vec::new();
        std::mem::swap(&mut entries, &mut self.entries);
        let _ = assoc_remove(&mut entries, stream_id);
        proof {
            lemma_assoc_entries(entries@);
        }
        self.entries = entries;
    }

    /// The stream ids whose retry is due at `now`, each once.
    pub fn due_stream_ids_at(&self, now: u128) -> (ids: Vec<String>)
        ensures
            are_due_ids(ids@, self@, now),
    {
        proof {
            use_type_invariant(self);
        }
        let mut ids: Vec<String> = Vec::new();
        let ghost mut idx: Seq<int> = Seq::empty();
        let mut i: usize = 0;
        while i < self.entries.len()
            invariant
                keys_distinct(self.entries@),
                i <= self.entries@.len(),
                idx.len() == ids@.len(),
                forall|a: int| #![trigger idx[a]] 0 <= a < idx.len() ==> 0 <= idx[a] < i
                    && self.entries@[idx[a]].0@ == ids@[a]@ && self.entries@[idx[a]].1.retry_at <= now,
                forall|a: int, b: int| 0 <= a < b < idx.len() ==> #[trigger] idx[a] < #[trigger] idx[b],
                forall|j: int| #![trigger self.entries@[j]] 0 <= j < i && self.entries@[j].1.retry_at <= now
                    ==> exists|a: int| 0 <= a < idx.len() && idx[a] == j,
            decreases self.entries@.len() - i,
        {
            if self.entries[i].1.retry_at <= now {
                ids.push(self.entries[i].0.clone());
                proof {
                    let old_idx = idx;
                    idx = idx.push(i as int);
                    assert forall|j: int| #![trigger self.entries@[j]] 0 <= j < i + 1 && self.entries@[j].1.retry_at <= now
                        implies exists|a: int| 0 <= a < idx.len() && idx[a] == j by {
                        if j == i {
                            assert(idx[old_idx.len() as int] == j);
                        } else {
                            let a = choose|a: int| 0 <= a < old_idx.len() && old_idx[a] == j;
                            assert(idx[a] == j);
                        }
                    }
                }
            }
            i = i + 1;
        }
        proof {
            assert forall|a: int, b: int| 0 <= a < ids@.len() && 0 <= b < ids@.len() && a != b implies
                #[trigger] ids@[a]@ != #[trigger] ids@[b]@ by {
                assert(idx[a] != idx[b]) by {
                    if a < b {
                        assert(idx[a] < idx[b]);
                    } else {
                        assert(idx[b] < idx[a]);
                    }
                }
                assert(self.entries@[idx[a]].0@ != self.entries@[idx[b]].0@);
            }
            assert forall|a: int| 0 <= a < ids@.len() implies is_due(self@, #[trigger] ids@[a]@, now) by {
                assert(0 <= idx[a]);
                lemma_assoc_view_at(self.entries@, idx[a]);
            }
            lemma_assoc_entries(self.entries@);
            assert forall|k: Seq<char>| #[trigger] is_due(self@, k, now) implies exists|a: int| 0 <= a < ids@.len() && #[trigger] ids@[a]@ == k by {
                assert(self@.contains_key(k));
                let j = choose|j: int| 0 <= j < self.entries@.len() && #[trigger] self.entries@[j].0@ == k;
                lemma_assoc_view_at(self.entries@, j);
                assert(self.entries@[j].1.retry_at <= now);
                let a = choose|a: int| 0 <= a < idx.len() && idx[a] == j;
                assert(ids@[a]@ == k);
            }
        }
        ids
    }

    /// The stream ids whose retry is due now on the scheduler's clock, each once: the
    /// clock is read, no earlier than any reading before, and the ids are those due at
    /// that reading; the schedule itself is left as it was.
    pub fn due_stream_ids(&mut self) -> (ids: Vec<String>)
        ensures
            exists|now: u128| are_due_ids(ids@, old(self)@, now),
            final(self).last_reading() >= old(self).last_reading(),
            are_due_ids(ids@, old(self)@, final(self).last_reading()),
            final(self)@ == old(self)@,
    {
        let now = self.read_clock();
        let ids = self.due_stream_ids_at(now);
        proof {
            assert(self@ == old(self)@);
            assert(are_due_ids(ids@, old(self)@, now));
        }
        ids
    }
}

} // verus!
