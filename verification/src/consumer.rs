//! The per-consumer aggregate and the store that maps consumer identities to
//! their running totals.
//!
//! The store keeps one entry per consumer identifier, created lazily on the
//! first validated reading and never removed. An applied reading adds its
//! consumption to the running total and stamps the entry with the reading's
//! timestamp, both in one step; its abstract effect is `apply_spec`.

use vstd::prelude::*;
use crate::meter_reading::MeterReading;

verus! {

/// The running aggregate of one consumer: the accumulated consumption in
/// hundredths of a kWh, and the timestamp of the reading applied last
/// (arrival order, not necessarily the chronologically largest).
#[derive(Debug, Clone, Copy)]
pub struct ConsumerData {
    pub total_consumption: u64,
    pub last_reading_time: Option<i64>,
}

impl ConsumerData {
    /// A fresh aggregate: nothing consumed, no reading seen.
    pub fn new() -> (d: Self)
        ensures
            d.total_consumption == 0,
            d.last_reading_time is None,
    {
        Self { total_consumption: 0, last_reading_time: None }
    }

    /// Folds one validated reading into the aggregate: the total grows by the
    /// reading's consumption and the last reading time becomes its timestamp.
    pub fn add_reading(&mut self, reading: u64, timestamp: i64)
        requires
            old(self).total_consumption + reading <= u64::MAX,
        ensures
            final(self).total_consumption == old(self).total_consumption + reading,
            final(self).last_reading_time == Some(timestamp),
    {
        self.total_consumption = self.total_consumption + reading;
        self.last_reading_time = Some(timestamp);
    }
}

/// The abstract content of a store or of a snapshot: the entries in
/// insertion order, each a consumer identifier with its aggregate.
pub open spec fn entries_view(s: Seq<(String, ConsumerData)>) -> Seq<(Seq<char>, ConsumerData)> {
    s.map_values(|e: (String, ConsumerData)| (e.0@, e.1))
}

/// Some entry of `s` carries the key `k`.
pub open spec fn has_key(s: Seq<(Seq<char>, ConsumerData)>, k: Seq<char>) -> bool {
    exists|i: int| 0 <= i < s.len() && s[i].0 == k
}

/// The position of the entry carrying `k` (unique when keys are distinct).
pub open spec fn key_at(s: Seq<(Seq<char>, ConsumerData)>, k: Seq<char>) -> int {
    choose|i: int| 0 <= i < s.len() && s[i].0 == k
}

/// The running total recorded for `k`: zero when `k` has no entry yet.
pub open spec fn total_of(s: Seq<(Seq<char>, ConsumerData)>, k: Seq<char>) -> u64 {
    if has_key(s, k) {
        s[key_at(s, k)].1.total_consumption
    } else {
        0
    }
}

/// The effect of applying one validated reading with consumer key `k`,
/// consumption `c` and timestamp `ts`: the consumer's entry (lazily created)
/// has `c` added to its total and its last reading time set to `ts`, in one
/// step; no other entry changes, and the entry order is kept.
pub open spec fn apply_spec(
    s: Seq<(Seq<char>, ConsumerData)>,
    k: Seq<char>,
    c: u64,
    ts: i64,
) -> Seq<(Seq<char>, ConsumerData)> {
    if has_key(s, k) {
        let i = key_at(s, k);
        s.update(
            i,
            (
                k,
                ConsumerData {
                    total_consumption: (s[i].1.total_consumption + c) as u64,
                    last_reading_time: Some(ts),
                },
            ),
        )
    } else {
        s.push((k, ConsumerData { total_consumption: c, last_reading_time: Some(ts) }))
    }
}

/// The mapping from consumer identity to running aggregate, shared between
/// the pipeline driver (writer) and the query surface (readers). Entries are
/// kept in insertion order and keys are distinct.
pub struct AggregateStore {
    entries: Vec<(String, ConsumerData)>,
}

impl AggregateStore {
    /// Keys are pairwise distinct: at most one entry per consumer.
    #[verifier::type_invariant]
    spec fn inv(self) -> bool {
        forall|i: int, j: int|
            #![trigger self.entries@[i], self.entries@[j]]
            0 <= i < j < self.entries@.len() ==> self.entries@[i].0@ != self.entries@[j].0@
    }

    /// The store's abstract content, in insertion order.
    pub closed spec fn contents(self) -> Seq<(Seq<char>, ConsumerData)> {
        entries_view(self.entries@)
    }

    /// An empty store.
    pub fn new() -> (s: Self)
        ensures
            s.contents() == Seq::<(Seq<char>, ConsumerData)>::empty(),
            keys_distinct(s.contents()),
    {
        let s = Self { entries: Vec::new() };
        proof {
            assert(s.contents() =~~= Seq::<(Seq<char>, ConsumerData)>::empty());
        }
        s
    }

    /// Applies one validated reading: looks up or lazily creates the entry
    /// for the reading's consumer, adds the consumption to the total and sets
    /// the last reading time to the reading's timestamp, atomically with
    /// respect to the store's abstract content.
    pub fn apply(&mut self, reading: &MeterReading)
        requires
            total_of(old(self).contents(), reading.consumer_id@) + reading.consumption
                <= u64::MAX,
        ensures
            final(self).contents() == apply_spec(
                old(self).contents(),
                reading.consumer_id@,
                reading.consumption,
                reading.timestamp,
            ),
            keys_distinct(old(self).contents()),
            keys_distinct(final(self).contents()),
    {
        proof {
            use_type_invariant(&*self);
        }
        let ghost s0 = self.contents();
        let mut entries: Vec<(String, ConsumerData)> = Vec::new();
        core::mem::swap(&mut entries, &mut self.entries);
        match find_key(&entries, &reading.consumer_id) {
            Some(i) => {
                proof {
                    assert(has_key(s0, reading.consumer_id@)) by {
                        assert(0 <= i < s0.len() && s0[i as int].0 == reading.consumer_id@);
                    }
                    assert(key_at(s0, reading.consumer_id@) == i) by {
                        let w = key_at(s0, reading.consumer_id@);
                        assert(0 <= w < s0.len() && s0[w].0 == reading.consumer_id@);
                    }
                }
                let total = entries[i].1.total_consumption;
                entries[i].1 = ConsumerData {
                    total_consumption: total + reading.consumption,
                    last_reading_time: Some(reading.timestamp),
                };
            },
            None => {
                entries.push(
                    (
                        reading.consumer_id.clone(),
                        ConsumerData {
                            total_consumption: reading.consumption,
                            last_reading_time: Some(reading.timestamp),
                        },
                    ),
                );
                proof {
                    assert(!has_key(s0, reading.consumer_id@));
                }
            },
        }
        core::mem::swap(&mut entries, &mut self.entries);
        proof {
            assert(self.contents() =~~= apply_spec(
                s0,
                reading.consumer_id@,
                reading.consumption,
                reading.timestamp,
            ));
            use_type_invariant(&*self);
            assert forall|a: int, b: int|
                0 <= a < b < self.contents().len() implies self.contents()[a].0
                != self.contents()[b].0 by {
                assert(self.entries@[a].0@ != self.entries@[b].0@);
            }
            assert forall|a: int, b: int| 0 <= a < b < s0.len() implies s0[a].0 != s0[b].0 by {
                assert(old(self).entries@[a].0@ != old(self).entries@[b].0@);
            }
        }
    }

    /// A consistent point-in-time copy of the entries, in insertion order.
    pub fn snapshot(&self) -> (r: Vec<(String, ConsumerData)>)
        ensures
            entries_view(r@) == self.contents(),
    {
        let mut out: Vec<(String, ConsumerData)> = Vec::new();
        let n = self.entries.len();
        let mut i: usize = 0;
        while i < n
            invariant
                i <= n,
                n == self.entries@.len(),
                entries_view(out@) =~~= entries_view(self.entries@).take(i as int),
            decreases n - i,
        {
            let ghost prev = out@;
            let id = self.entries[i].0.clone();
            let data = self.entries[i].1;
            out.push((id, data));
            proof {
                assert(entries_view(prev).len() == prev.len());
                assert(entries_view(out@) =~~= entries_view(self.entries@).take(i as int + 1));
            }
            i = i + 1;
        }
        proof {
            assert(entries_view(self.entries@).take(n as int) =~~= self.contents());
        }
        out
    }

    /// The running total recorded for the given consumer, zero when the
    /// consumer has no entry yet.
    pub fn total_for(&self, consumer_id: &String) -> (r: u64)
        ensures
            r == total_of(self.contents(), consumer_id@),
    {
        proof {
            use_type_invariant(&*self);
        }
        match find_key(&self.entries, consumer_id) {
            Some(i) => {
                proof {
                    assert(has_key(self.contents(), consumer_id@)) by {
                        assert(0 <= i < self.contents().len()
                            && self.contents()[i as int].0 == consumer_id@);
                    }
                    assert(key_at(self.contents(), consumer_id@) == i) by {
                        let w = key_at(self.contents(), consumer_id@);
                        assert(0 <= w < self.contents().len()
                            && self.contents()[w].0 == consumer_id@);
                    }
                }
                self.entries[i].1.total_consumption
            },
            None => {
                proof {
                    assert(!has_key(self.contents(), consumer_id@));
                }
                0
            },
        }
    }
}

/// The position of the entry whose identifier equals `key`, if any.
fn find_key(entries: &Vec<(String, ConsumerData)>, key: &String) -> (r: Option<usize>)
    ensures
        r matches Some(i) ==> i < entries@.len() && entries@[i as int].0@ == key@,
        r is None ==> forall|j: int| 0 <= j < entries@.len() ==> entries@[j].0@ != key@,
{
    let n = entries.len();
    let mut i: usize = 0;
    while i < n
        invariant
            i <= n,
            n == entries@.len(),
            forall|j: int| 0 <= j < i ==> entries@[j].0@ != key@,
        decreases n - i,
    {
        if entries[i].0 == *key {
            return Some(i);
        }
        i = i + 1;
    }
    None
}

/// At most one entry per consumer identifier.
pub open spec fn keys_distinct(s: Seq<(Seq<char>, ConsumerData)>) -> bool {
    forall|i: int, j: int|
        #![trigger s[i], s[j]]
        0 <= i < j < s.len() ==> s[i].0 != s[j].0
}

/// Isolation law: one applied reading touches exactly one entry. The
/// consumer's total grows by exactly the reading's consumption and its last
/// reading time becomes the reading's timestamp, in the same step; every
/// other consumer's record — present or absent — is untouched, keys stay
/// distinct, and no entry is removed.
pub proof fn lemma_apply_isolation(s: Seq<(Seq<char>, ConsumerData)>, k: Seq<char>, c: u64, ts: i64)
    requires
        keys_distinct(s),
        total_of(s, k) + c <= u64::MAX,
    ensures
        ({
            let n = apply_spec(s, k, c, ts);
            &&& keys_distinct(n)
            &&& has_key(n, k)
            &&& total_of(n, k) == total_of(s, k) + c
            &&& n[key_at(n, k)].1.last_reading_time == Some(ts)
            &&& forall|k2: Seq<char>| k2 != k ==> #[trigger] total_of(n, k2) == total_of(s, k2)
            &&& forall|k2: Seq<char>| k2 != k ==> #[trigger] has_key(n, k2) == has_key(s, k2)
        }),
{
    let n = apply_spec(s, k, c, ts);
    if has_key(s, k) {
        let i = key_at(s, k);
        assert(0 <= i < s.len() && s[i].0 == k);
        assert(forall|t: int| #![trigger n[t]] 0 <= t < n.len() ==> n[t].0 == s[t].0);
        assert(has_key(n, k)) by {
            assert(n[i].0 == k);
        }
        assert(key_at(n, k) == i) by {
            let w = key_at(n, k);
            assert(0 <= w < n.len() && n[w].0 == k);
            assert(s[w].0 == k);
        }
        assert forall|k2: Seq<char>| k2 != k implies #[trigger] has_key(n, k2) == has_key(
            s,
            k2,
        ) by {
            if has_key(s, k2) {
                let w = key_at(s, k2);
                assert(n[w].0 == k2);
            }
            if has_key(n, k2) {
                let w = key_at(n, k2);
                assert(s[w].0 == k2);
            }
        }
        assert forall|k2: Seq<char>| k2 != k implies #[trigger] total_of(n, k2) == total_of(
            s,
            k2,
        ) by {
            if has_key(s, k2) {
                let w = key_at(s, k2);
                assert(n[w].0 == k2);
                assert(key_at(n, k2) == w) by {
                    let v = key_at(n, k2);
                    assert(0 <= v < n.len() && n[v].0 == k2);
                    assert(s[v].0 == k2);
                }
                assert(w != i);
                assert(n[w] == s[w]);
            }
        }
    } else {
        assert(n == s.push((k, ConsumerData { total_consumption: c, last_reading_time: Some(ts) })));
        assert(forall|t: int| #![trigger n[t]] 0 <= t < s.len() ==> n[t] == s[t]);
        assert(n[s.len() as int].0 == k);
        assert(has_key(n, k));
        assert(key_at(n, k) == s.len()) by {
            let w = key_at(n, k);
            assert(0 <= w < n.len() && n[w].0 == k);
            if w < s.len() {
                assert(s[w].0 == k);
            }
        }
        assert(keys_distinct(n)) by {
            assert forall|a: int, b: int| 0 <= a < b < n.len() implies n[a].0 != n[b].0 by {
                if b < s.len() {
                    assert(s[a].0 != s[b].0);
                } else {
                    if n[a].0 == k {
                        assert(s[a].0 == k);
                    }
                }
            }
        }
        assert forall|k2: Seq<char>| k2 != k implies #[trigger] has_key(n, k2) == has_key(
            s,
            k2,
        ) by {
            if has_key(s, k2) {
                let w = key_at(s, k2);
                assert(n[w].0 == k2);
            }
            if has_key(n, k2) {
                let w = key_at(n, k2);
                assert(w < s.len());
                assert(s[w].0 == k2);
            }
        }
        assert forall|k2: Seq<char>| k2 != k implies #[trigger] total_of(n, k2) == total_of(
            s,
            k2,
        ) by {
            if has_key(s, k2) {
                let w = key_at(s, k2);
                assert(n[w].0 == k2);
                assert(key_at(n, k2) == w) by {
                    let v = key_at(n, k2);
                    assert(0 <= v < n.len() && n[v].0 == k2);
                    assert(v < s.len());
                    assert(s[v].0 == k2);
                }
            }
        }
    }
}

/// The total consumption carried by the readings `rs`, each a pair of
/// consumption and timestamp.
pub open spec fn sum_consumptions(rs: Seq<(u64, i64)>) -> int
    decreases rs.len(),
{
    if rs.len() == 0 {
        0
    } else {
        sum_consumptions(rs.drop_last()) + rs.last().0
    }
}

/// The store content after applying the readings `rs`, all for consumer `k`,
/// in the order given.
pub open spec fn apply_all(
    s: Seq<(Seq<char>, ConsumerData)>,
    k: Seq<char>,
    rs: Seq<(u64, i64)>,
) -> Seq<(Seq<char>, ConsumerData)>
    decreases rs.len(),
{
    if rs.len() == 0 {
        s
    } else {
        apply_spec(apply_all(s, k, rs.drop_last()), k, rs.last().0, rs.last().1)
    }
}

proof fn lemma_sum_nonneg(rs: Seq<(u64, i64)>)
    ensures
        sum_consumptions(rs) >= 0,
    decreases rs.len(),
{
    if rs.len() > 0 {
        lemma_sum_nonneg(rs.drop_last());
    }
}

/// Accumulation law: applying any non-empty sequence of readings for one
/// consumer to a fresh store yields a single entry whose total is the sum of
/// the consumptions and whose last reading time is the timestamp of the
/// reading applied last — arrival order, not the chronologically largest.
pub proof fn lemma_accumulation(k: Seq<char>, rs: Seq<(u64, i64)>)
    requires
        rs.len() > 0,
        sum_consumptions(rs) <= u64::MAX,
    ensures
        ({
            let s = apply_all(Seq::empty(), k, rs);
            &&& s.len() == 1
            &&& s[0].0 == k
            &&& s[0].1.total_consumption == sum_consumptions(rs)
            &&& s[0].1.last_reading_time == Some(rs.last().1)
        }),
    decreases rs.len(),
{
    let prev_rs = rs.drop_last();
    if rs.len() == 1 {
        assert(prev_rs.len() == 0);
        assert(apply_all(Seq::empty(), k, prev_rs) == Seq::<(Seq<char>, ConsumerData)>::empty());
        assert(sum_consumptions(prev_rs) == 0);
        assert(!has_key(Seq::empty(), k));
        assert(apply_all(Seq::empty(), k, rs) == Seq::empty().push(
            (k, ConsumerData { total_consumption: rs.last().0, last_reading_time: Some(rs.last().1) }),
        ));
    } else {
        lemma_sum_nonneg(prev_rs);
        lemma_accumulation(k, prev_rs);
        let sp = apply_all(Seq::empty(), k, prev_rs);
        assert(has_key(sp, k)) by {
            assert(0 <= 0 < sp.len() && sp[0].0 == k);
        }
        assert(key_at(sp, k) == 0) by {
            let w = key_at(sp, k);
            assert(0 <= w < sp.len() && sp[w].0 == k);
        }
        assert(sum_consumptions(rs) == sum_consumptions(prev_rs) + rs.last().0);
        assert(apply_all(Seq::empty(), k, rs) == apply_spec(sp, k, rs.last().0, rs.last().1));
    }
}

/// Looks up or lazily creates the aggregate entry for the reading's consumer
/// and folds the reading into it.
pub fn aggregate_data(consumer_aggregation: &mut AggregateStore, reading: &MeterReading)
    requires
        total_of(old(consumer_aggregation).contents(), reading.consumer_id@)
            + reading.consumption <= u64::MAX,
    ensures
        final(consumer_aggregation).contents() == apply_spec(
            old(consumer_aggregation).contents(),
            reading.consumer_id@,
            reading.consumption,
            reading.timestamp,
        ),
{
    consumer_aggregation.apply(reading);
}

} // verus!
