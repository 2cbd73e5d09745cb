//! Sync/FollowUp pairer: a bounded table of pending Sync receptions.
//!
//! A Sync message records the receive wallclock T2 under its sequence id; the
//! matching FollowUp carries the precise origin timestamp T1 and consumes the
//! entry, but only when its source UUID equals the one stored. The table is
//! modelled as a map from sequence id to pending entry; a vector with
//! pairwise-distinct sequence ids implements it.

use vstd::prelude::*;

verus! {

/// A Sync waiting for its FollowUp: the receive wallclock (T2, also the
/// enqueue time for garbage collection) and the sender's UUID, packed into
/// an integer key (see `ptp::uuid_key`).
#[derive(Debug, Clone, Copy, PartialEq, Eq, Structural)]
pub struct PendingSync {
    pub sequence_id: u16,
    pub t2_ns: i64,
    pub source_uuid: u64,
}

/// Entries older than this (by wallclock) are evicted when the table is full.
pub const PAIRER_MAX_AGE_NS: i64 = 5_000_000_000;

/// Garbage collection runs only once the table has grown past this bound.
pub const PAIRER_SOFT_BOUND: usize = 100;

/// Whether an entry enqueued at `t2_ns` is still young at time `now_ns`.
/// A wallclock that stepped backwards keeps the entry, as a fresh one.
pub open spec fn spec_young(e: PendingSync, now_ns: int) -> bool {
    now_ns - e.t2_ns < PAIRER_MAX_AGE_NS
}

/// No two entries share a sequence id.
pub open spec fn distinct_sids(s: Seq<PendingSync>) -> bool {
    forall|i: int, j: int|
        0 <= i < j < s.len() ==> (#[trigger] s[i]).sequence_id != (#[trigger] s[j]).sequence_id
}

/// Every entry carries a non-negative receive timestamp.
pub open spec fn nonneg_times(s: Seq<PendingSync>) -> bool {
    forall|i: int| 0 <= i < s.len() ==> (#[trigger] s[i]).t2_ns >= 0
}

/// Relates a table's map before and after garbage collection at `now_ns`:
/// exactly the young entries survive, unchanged.
pub open spec fn gc_relation(
    before: Map<u16, PendingSync>,
    after: Map<u16, PendingSync>,
    now_ns: int,
) -> bool {
    &&& forall|k: u16|
        #[trigger] after.contains_key(k) <==> (before.contains_key(k) && spec_young(
            before[k],
            now_ns,
        ))
    &&& forall|k: u16| #[trigger] after.contains_key(k) ==> after[k] == before[k]
}

/// How many entries of a sequence are still young at `now_ns`.
pub open spec fn young_count(s: Seq<PendingSync>, now_ns: int) -> int
    decreases s.len(),
{
    if s.len() == 0 {
        0
    } else {
        young_count(s.drop_last(), now_ns) + if spec_young(s.last(), now_ns) {
            1int
        } else {
            0int
        }
    }
}

/// At most every entry is young.
pub proof fn lemma_young_count_le_len(s: Seq<PendingSync>, now_ns: int)
    ensures
        0 <= young_count(s, now_ns) <= s.len(),
    decreases s.len(),
{
    if s.len() > 0 {
        lemma_young_count_le_len(s.drop_last(), now_ns);
    }
}

/// The map a sequence of entries stands for; later entries win.
pub open spec fn map_of(s: Seq<PendingSync>) -> Map<u16, PendingSync>
    decreases s.len(),
{
    if s.len() == 0 {
        Map::empty()
    } else {
        map_of(s.drop_last()).insert(s.last().sequence_id, s.last())
    }
}

/// What `map_of` holds: a key is present exactly when some entry carries it,
/// and under distinct sequence ids each entry is its own key's value.
pub proof fn lemma_map_of_char(s: Seq<PendingSync>)
    ensures
        forall|k: u16|
            #[trigger] map_of(s).contains_key(k) <==> exists|i: int|
                0 <= i < s.len() && (#[trigger] s[i]).sequence_id == k,
        distinct_sids(s) ==> forall|i: int|
            0 <= i < s.len() ==> map_of(s)[(#[trigger] s[i]).sequence_id] == s[i],
    decreases s.len(),
{
    if s.len() > 0 {
        let pre = s.drop_last();
        let last = s.last();
        lemma_map_of_char(pre);
        assert(map_of(s) == map_of(pre).insert(last.sequence_id, last));
        assert(forall|i: int| 0 <= i < pre.len() ==> #[trigger] pre[i] == s[i]);
        assert forall|k: u16| #[trigger] map_of(s).contains_key(k) implies exists|i: int|
            0 <= i < s.len() && (#[trigger] s[i]).sequence_id == k by {
            if k == last.sequence_id {
                assert(0 <= s.len() - 1 < s.len() && (#[trigger] s[s.len() - 1]).sequence_id == k);
            } else {
                assert(map_of(pre).contains_key(k));
                let i = choose|i: int| 0 <= i < pre.len() && (#[trigger] pre[i]).sequence_id == k;
                assert(0 <= i < s.len() && (#[trigger] s[i]).sequence_id == k);
            }
        }
        assert forall|k: u16|
            (exists|i: int|
                0 <= i < s.len() && (#[trigger] s[i]).sequence_id == k) implies #[trigger] map_of(
            s,
        ).contains_key(k) by {
            let i = choose|i: int| 0 <= i < s.len() && (#[trigger] s[i]).sequence_id == k;
            if i < s.len() - 1 {
                assert((#[trigger] pre[i]).sequence_id == k);
                assert(map_of(pre).contains_key(k));
            }
        }
        if distinct_sids(s) {
            assert(distinct_sids(pre)) by {
                assert forall|i: int, j: int| 0 <= i < j < pre.len() implies (
                #[trigger] pre[i]).sequence_id != (#[trigger] pre[j]).sequence_id by {
                    assert(pre[i] == s[i] && pre[j] == s[j]);
                }
            }
            assert forall|i: int| 0 <= i < s.len() implies map_of(s)[(#[trigger] s[i]).sequence_id]
                == s[i] by {
                if i < s.len() - 1 {
                    assert(pre[i] == s[i]);
                    assert(s[i].sequence_id != s[s.len() - 1].sequence_id);
                    assert(map_of(pre)[s[i].sequence_id] == pre[i]);
                }
            }
        }
    }
}

/// Removing entry `i` removes exactly its key from the map and keeps the
/// remaining entries distinct.
pub proof fn lemma_map_of_remove(s: Seq<PendingSync>, i: int)
    requires
        distinct_sids(s),
        0 <= i < s.len(),
    ensures
        map_of(s.remove(i)) =~= map_of(s).remove(s[i].sequence_id),
        distinct_sids(s.remove(i)),
        forall|a: int| 0 <= a < i ==> #[trigger] s.remove(i)[a] == s[a],
        forall|a: int| i <= a < s.remove(i).len() ==> #[trigger] s.remove(i)[a] == s[a + 1],
{
    let k = s[i].sequence_id;
    let r = s.remove(i);
    assert(forall|a: int| 0 <= a < i ==> #[trigger] r[a] == s[a]);
    assert(forall|a: int| i <= a < r.len() ==> #[trigger] r[a] == s[a + 1]);
    assert(distinct_sids(r)) by {
        assert forall|a: int, b: int| 0 <= a < b < r.len() implies (#[trigger] r[a]).sequence_id
            != (#[trigger] r[b]).sequence_id by {
            let a0 = if a < i {
                a
            } else {
                a + 1
            };
            let b0 = if b < i {
                b
            } else {
                b + 1
            };
            assert(r[a] == s[a0] && r[b] == s[b0]);
        }
    }
    lemma_map_of_char(s);
    lemma_map_of_char(r);
    assert forall|k2: u16| #[trigger] map_of(r).contains_key(k2) implies map_of(s).remove(
        k,
    ).contains_key(k2) && map_of(r)[k2] == map_of(s).remove(k)[k2] by {
        let a = choose|a: int| 0 <= a < r.len() && (#[trigger] r[a]).sequence_id == k2;
        let a0 = if a < i {
            a
        } else {
            a + 1
        };
        assert(r[a] == s[a0]);
        assert(s[a0].sequence_id == k2);
        assert(k2 != k);
        assert(map_of(s)[k2] == s[a0]);
        assert(map_of(r)[k2] == r[a]);
    }
    assert forall|k2: u16| #[trigger] map_of(s).remove(k).contains_key(k2) implies map_of(
        r,
    ).contains_key(k2) by {
        let a0 = choose|a0: int| 0 <= a0 < s.len() && (#[trigger] s[a0]).sequence_id == k2;
        assert(k2 != k);
        assert(a0 != i);
        let a = if a0 < i {
            a0
        } else {
            a0 - 1
        };
        assert(r[a] == s[a0]);
    }
}

/// Index of the entry carrying `sid`, if one does.
fn find_index(entries: &Vec<PendingSync>, sid: u16) -> (r: Option<usize>)
    ensures
        match r {
            Some(i) => 0 <= i < entries@.len() && entries@[i as int].sequence_id == sid,
            None => forall|j: int|
                0 <= j < entries@.len() ==> (#[trigger] entries@[j]).sequence_id != sid,
        },
{
    let n = entries.len();
    let mut i: usize = 0;
    while i < n
        invariant
            n == entries@.len(),
            0 <= i <= n,
            forall|j: int| 0 <= j < i ==> (#[trigger] entries@[j]).sequence_id != sid,
        decreases n - i,
    {
        if entries[i].sequence_id == sid {
            return Some(i);
        }
        i += 1;
    }
    None
}

/// The pending-Sync table.
pub struct SyncPairer {
    pub entries: Vec<PendingSync>,
}

impl SyncPairer {
    /// Invariant: sequence ids are distinct and timestamps non-negative.
    pub open spec fn wf(&self) -> bool {
        &&& distinct_sids(self.entries@)
        &&& nonneg_times(self.entries@)
    }

    /// The map this table stands for.
    pub open spec fn view(&self) -> Map<u16, PendingSync> {
        map_of(self.entries@)
    }

    /// How many entries are pending.
    pub open spec fn spec_count(&self) -> nat {
        self.entries@.len()
    }

    /// An empty table.
    pub fn new() -> (p: Self)
        ensures
            p.wf(),
            p.view() =~= Map::<u16, PendingSync>::empty(),
            p.spec_count() == 0,
    {
        SyncPairer { entries: Vec::new() }
    }

    /// Empties the table.
    pub fn reset(&mut self)
        ensures
            final(self).wf(),
            final(self).view() =~= Map::<u16, PendingSync>::empty(),
            final(self).spec_count() == 0,
    {
        self.entries.clear();
    }

    /// How many entries are pending.
    pub fn len(&self) -> (n: usize)
        ensures
            n == self.spec_count(),
    {
        self.entries.len()
    }

    /// Records a Sync reception under its sequence id; a duplicate Sync for
    /// the same sequence id supersedes the stored entry.
    pub fn record_sync(&mut self, sequence_id: u16, t2_ns: i64, source_uuid: u64)
        requires
            old(self).wf(),
            t2_ns >= 0,
        ensures
            final(self).wf(),
            final(self).view() =~= old(self).view().insert(
                sequence_id,
                PendingSync { sequence_id, t2_ns, source_uuid },
            ),
            final(self).spec_count() <= old(self).spec_count() + 1,
            final(self).spec_count() == old(self).spec_count() + (if old(self).view().contains_key(
                sequence_id,
            ) {
                0int
            } else {
                1int
            }),
    {
        proof {
            lemma_map_of_char(old(self).entries@);
        }
        let entry = PendingSync { sequence_id, t2_ns, source_uuid };
        let ghost s0 = self.entries@;
        match find_index(&self.entries, sequence_id) {
            Some(i) => {
                proof {
                    lemma_map_of_remove(s0, i as int);
                    lemma_map_of_char(s0.remove(i as int));
                }
                self.entries.remove(i);
                self.entries.push(entry);
                proof {
                    let s1 = s0.remove(i as int);
                    let s2 = self.entries@;
                    assert(s2.drop_last() =~= s1);
                    assert(s2.last() == entry);
                    assert(!map_of(s1).contains_key(sequence_id));
                    assert(distinct_sids(s2)) by {
                        assert forall|a: int, b: int| 0 <= a < b < s2.len() implies (
                        #[trigger] s2[a]).sequence_id != (#[trigger] s2[b]).sequence_id by {
                            if b == s2.len() - 1 {
                                assert(s2[a] == s1[a]);
                                if s1[a].sequence_id == sequence_id {
                                    assert(map_of(s1).contains_key(sequence_id));
                                }
                            } else {
                                assert(s2[a] == s1[a] && s2[b] == s1[b]);
                            }
                        }
                    }
                    assert(nonneg_times(s2)) by {
                        assert forall|a: int| 0 <= a < s2.len() implies (#[trigger] s2[a]).t2_ns
                            >= 0 by {
                            if a < s2.len() - 1 {
                                let a0 = if a < i as int {
                                    a
                                } else {
                                    a + 1
                                };
                                assert(s2[a] == s1[a] && s1[a] == s0[a0]);
                            }
                        }
                    }
                    assert(map_of(s2) == map_of(s1).insert(sequence_id, entry));
                    assert(map_of(s2) =~= map_of(s0).insert(sequence_id, entry));
                }
            },
            None => {
                self.entries.push(entry);
                proof {
                    let s2 = self.entries@;
                    assert(s2.drop_last() =~= s0);
                    assert(s2.last() == entry);
                    assert(distinct_sids(s2)) by {
                        assert forall|a: int, b: int| 0 <= a < b < s2.len() implies (
                        #[trigger] s2[a]).sequence_id != (#[trigger] s2[b]).sequence_id by {
                            if b == s2.len() - 1 {
                                assert(s2[a] == s0[a]);
                            } else {
                                assert(s2[a] == s0[a] && s2[b] == s0[b]);
                            }
                        }
                    }
                    assert(nonneg_times(s2)) by {
                        assert forall|a: int| 0 <= a < s2.len() implies (#[trigger] s2[a]).t2_ns
                            >= 0 by {
                            if a < s2.len() - 1 {
                                assert(s2[a] == s0[a]);
                            }
                        }
                    }
                    assert(map_of(s2) == map_of(s0).insert(sequence_id, entry));
                }
            },
        }
    }

    /// Consumes the pending Sync a FollowUp completes. Yields the stored T2
    /// and removes the entry only when one is pending under the associated
    /// sequence id and its source UUID matches; otherwise the table is
    /// untouched and the FollowUp is dropped.
    pub fn match_followup(&mut self, associated_sequence_id: u16, source_uuid: u64) -> (r:
        Option<i64>)
        requires
            old(self).wf(),
        ensures
            final(self).wf(),
            ({
                let m = old(self).view();
                if m.contains_key(associated_sequence_id)
                    && m[associated_sequence_id].source_uuid == source_uuid {
                    r == Some(m[associated_sequence_id].t2_ns) && final(self).view() =~= m.remove(
                        associated_sequence_id,
                    ) && final(self).spec_count() + 1 == old(self).spec_count()
                } else {
                    r.is_none() && final(self).entries@ == old(self).entries@
                }
            }),
            final(self).spec_count() <= old(self).spec_count(),
            r matches Some(v) ==> v >= 0,
    {
        let ghost s0 = self.entries@;
        proof {
            lemma_map_of_char(s0);
        }
        match find_index(&self.entries, associated_sequence_id) {
            Some(i) => {
                let stored = self.entries[i];
                proof {
                    assert(map_of(s0).contains_key(associated_sequence_id));
                    assert(map_of(s0)[associated_sequence_id] == s0[i as int]);
                }
                if stored.source_uuid == source_uuid {
                    proof {
                        lemma_map_of_remove(s0, i as int);
                    }
                    self.entries.remove(i);
                    proof {
                        assert(nonneg_times(self.entries@)) by {
                            assert forall|a: int| 0 <= a < self.entries@.len() implies (
                            #[trigger] self.entries@[a]).t2_ns >= 0 by {
                                let a0 = if a < i as int {
                                    a
                                } else {
                                    a + 1
                                };
                                assert(self.entries@[a] == s0[a0]);
                            }
                        }
                    }
                    Some(stored.t2_ns)
                } else {
                    None
                }
            },
            None => None,
        }
    }

    /// Evicts every entry older than `PAIRER_MAX_AGE_NS` at time `now_ns`;
    /// young entries survive unchanged.
    #[verifier::rlimit(30)]
    pub fn gc(&mut self, now_ns: i64)
        requires
            old(self).wf(),
            now_ns >= 0,
        ensures
            final(self).wf(),
            gc_relation(old(self).view(), final(self).view(), now_ns as int),
            final(self).spec_count() == young_count(old(self).entries@, now_ns as int),
            final(self).spec_count() <= old(self).spec_count(),
            forall|i: int|
                0 <= i < final(self).entries@.len() ==> spec_young(
                    #[trigger] final(self).entries@[i],
                    now_ns as int,
                ),
    {
        let ghost s0 = self.entries@;
        proof {
            lemma_map_of_char(s0);
        }
        let mut kept: Vec<PendingSync> = Vec::new();
        let n = self.entries.len();
        let mut j: usize = 0;
        while j < n
            invariant
                self.entries@ == s0,
                distinct_sids(s0),
                nonneg_times(s0),
                now_ns >= 0,
                n == s0.len(),
                0 <= j <= n,
                distinct_sids(kept@),
                nonneg_times(kept@),
                forall|i: int|
                    0 <= i < kept@.len() ==> spec_young(#[trigger] kept@[i], now_ns as int),
                forall|i: int|
                    0 <= i < kept@.len() ==> exists|j2: int|
                        0 <= j2 < j && #[trigger] kept@[i] == s0[j2],
                forall|j2: int|
                    0 <= j2 < j && spec_young(#[trigger] s0[j2], now_ns as int) ==> exists|i: int|
                        0 <= i < kept@.len() && kept@[i] == s0[j2],
                kept@.len() == young_count(s0.subrange(0, j as int), now_ns as int),
                kept@.len() <= j,
            decreases n - j,
        {
            proof {
                assert(s0.subrange(0, j + 1).drop_last() =~= s0.subrange(0, j as int));
                assert(s0.subrange(0, j + 1).last() == s0[j as int]);
            }
            let e = self.entries[j];
            if now_ns - e.t2_ns < PAIRER_MAX_AGE_NS {
                let ghost kept0 = kept@;
                kept.push(e);
                proof {
                    assert(distinct_sids(kept@)) by {
                        assert forall|a: int, b: int| 0 <= a < b < kept@.len() implies (
                        #[trigger] kept@[a]).sequence_id != (#[trigger] kept@[b]).sequence_id by {
                            if b == kept@.len() - 1 {
                                assert(kept@[a] == kept0[a]);
                                let ja = choose|j2: int|
                                    0 <= j2 < j && #[trigger] kept0[a] == s0[j2];
                                assert(s0[ja].sequence_id != s0[j as int].sequence_id);
                            } else {
                                assert(kept@[a] == kept0[a] && kept@[b] == kept0[b]);
                            }
                        }
                    }
                    assert forall|i: int| 0 <= i < kept@.len() implies exists|j2: int|
                        0 <= j2 < j + 1 && #[trigger] kept@[i] == s0[j2] by {
                        if i < kept@.len() - 1 {
                            assert(kept@[i] == kept0[i]);
                            let j2 = choose|j2: int| 0 <= j2 < j && #[trigger] kept0[i] == s0[j2];
                            assert(0 <= j2 < j + 1 && kept@[i] == s0[j2]);
                        } else {
                            assert(0 <= j < j + 1 && kept@[i] == s0[j as int]);
                        }
                    }
                    assert forall|j2: int|
                        0 <= j2 < j + 1 && spec_young(
                            #[trigger] s0[j2],
                            now_ns as int,
                        ) implies exists|i: int| 0 <= i < kept@.len() && kept@[i] == s0[j2] by {
                        if j2 < j {
                            let i = choose|i: int| 0 <= i < kept0.len() && kept0[i] == s0[j2];
                            assert(kept@[i] == s0[j2]);
                        } else {
                            assert(kept@[kept@.len() - 1] == s0[j2]);
                        }
                    }
                }
            } else {
                proof {
                    assert forall|i: int| 0 <= i < kept@.len() implies exists|j2: int|
                        0 <= j2 < j + 1 && #[trigger] kept@[i] == s0[j2] by {
                        let j2 = choose|j2: int| 0 <= j2 < j && #[trigger] kept@[i] == s0[j2];
                        assert(0 <= j2 < j + 1 && kept@[i] == s0[j2]);
                    }
                }
            }
            j += 1;
        }
        self.entries = kept;
        proof {
            assert(s0.subrange(0, n as int) =~= s0);
            lemma_young_count_le_len(s0, now_ns as int);
            let s1 = self.entries@;
            lemma_map_of_char(s1);
            assert forall|k: u16| #[trigger] map_of(s1).contains_key(k) implies (map_of(
                s0,
            ).contains_key(k) && spec_young(map_of(s0)[k], now_ns as int) && map_of(s1)[k]
                == map_of(s0)[k]) by {
                let i = choose|i: int| 0 <= i < s1.len() && (#[trigger] s1[i]).sequence_id == k;
                let j2 = choose|j2: int| 0 <= j2 < n && #[trigger] s1[i] == s0[j2];
                assert(s0[j2].sequence_id == k);
                assert(map_of(s0)[k] == s0[j2]);
                assert(map_of(s1)[k] == s1[i]);
            }
            assert forall|k: u16|
                map_of(s0).contains_key(k) && spec_young(
                    map_of(s0)[k],
                    now_ns as int,
                ) implies #[trigger] map_of(s1).contains_key(k) by {
                let j2 = choose|j2: int| 0 <= j2 < s0.len() && (#[trigger] s0[j2]).sequence_id == k;
                assert(map_of(s0)[k] == s0[j2]);
                assert(spec_young(s0[j2], now_ns as int));
                let i = choose|i: int| 0 <= i < s1.len() && s1[i] == s0[j2];
                assert(s1[i].sequence_id == k);
            }
        }
    }
}

/// No entry outlives garbage collection by more than the age bound: every
/// entry the collected table still holds is younger than five seconds, was
/// present before, and is unchanged. The table can only exceed the soft
/// bound while all of its entries are young.
pub proof fn lemma_gc_no_stale_survivor(
    before: Map<u16, PendingSync>,
    after: Map<u16, PendingSync>,
    now_ns: int,
    k: u16,
)
    requires
        gc_relation(before, after, now_ns),
        after.contains_key(k),
    ensures
        spec_young(after[k], now_ns),
        before.contains_key(k),
        after[k] == before[k],
{
}

/// A matching Sync/FollowUp pair is produced exactly once: recording a Sync
/// makes its entry retrievable under its sequence id, and once the matching
/// FollowUp consumes it, no key remains for a second FollowUp to find.
pub proof fn lemma_pair_exactly_once(m: Map<u16, PendingSync>, e: PendingSync)
    ensures
        m.insert(e.sequence_id, e).contains_key(e.sequence_id),
        m.insert(e.sequence_id, e)[e.sequence_id] == e,
        !m.insert(e.sequence_id, e).remove(e.sequence_id).contains_key(e.sequence_id),
{
}

} // verus!
