//! An in-process store: the live table and the acquisition log in memory,
//! with every operation of the service carried out on it.
use vstd::prelude::*;
use crate::engine::{check_pod_name, is_empty_name_error, plan_acquire};
use crate::entry::{EngineError, PodHistoryEntry, ProducerHistoryEntry, ProducerId, ProducerRecord, Timestamp};
use crate::minting::{is_free, some_free};

verus! {

/// A ledger as plain values: the live table from pod name to identifier, and
/// every acquisition in order, oldest first, as the two records it appended.
pub struct LedgerState {
    pub table: Map<Seq<char>, ProducerId>,
    pub log: Seq<(PodHistoryEntry, ProducerRecord)>,
}

/// Some live pod holds `id`.
pub open spec fn in_use(table: Map<Seq<char>, ProducerId>, id: ProducerId) -> bool {
    exists|k: Seq<char>| #[trigger] table.contains_key(k) && table[k] == id
}

/// No live pod holds `0`, and no two live pods hold the same identifier.
pub open spec fn table_ok(table: Map<Seq<char>, ProducerId>) -> bool {
    &&& forall|k: Seq<char>| #[trigger] table.contains_key(k) ==> table[k] != 0
    &&& forall|k1: Seq<char>, k2: Seq<char>|
        #[trigger] table.contains_key(k1) && #[trigger] table.contains_key(k2) && k1 != k2
            ==> table[k1] != table[k2]
}

/// Some non-zero identifier is held by no live pod.
pub open spec fn can_mint(table: Map<Seq<char>, ProducerId>) -> bool {
    exists|id: ProducerId| id != 0 && !#[trigger] in_use(table, id)
}

/// `id` is what an `acquire` of `name` may settle on in `s`: the pod's
/// binding, or else any identifier that is neither `0` nor in use.
pub open spec fn acquire_resolves(s: LedgerState, name: Seq<char>, id: ProducerId) -> bool {
    if s.table.contains_key(name) {
        id == s.table[name]
    } else {
        id != 0 && !in_use(s.table, id)
    }
}

/// The ledger after `name` acquired `id` at `at`.
pub open spec fn acquire_step(
    s: LedgerState,
    name: Seq<char>,
    id: ProducerId,
    at: Timestamp,
) -> LedgerState {
    LedgerState {
        table: s.table.insert(name, id),
        log: s.log.push(
            (
                PodHistoryEntry { producer_id: id, date: at },
                ProducerRecord { pod_name: name, date: at },
            ),
        ),
    }
}

/// The ledger after `name` released its binding.
pub open spec fn release_step(s: LedgerState, name: Seq<char>) -> LedgerState {
    LedgerState { table: s.table.remove(name), log: s.log }
}

/// The history of the pod `name`: the record of each of its acquisitions,
/// newest first.
pub open spec fn pod_history_of(
    log: Seq<(PodHistoryEntry, ProducerRecord)>,
    name: Seq<char>,
) -> Seq<PodHistoryEntry>
    decreases log.len(),
{
    if log.len() == 0 {
        Seq::empty()
    } else {
        let rest = pod_history_of(log.drop_last(), name);
        if log.last().1.pod_name == name {
            seq![log.last().0] + rest
        } else {
            rest
        }
    }
}

/// The history of the identifier `id`: the record of each acquisition that
/// settled on it, newest first.
pub open spec fn producer_history_of(
    log: Seq<(PodHistoryEntry, ProducerRecord)>,
    id: ProducerId,
) -> Seq<ProducerRecord>
    decreases log.len(),
{
    if log.len() == 0 {
        Seq::empty()
    } else {
        let rest = producer_history_of(log.drop_last(), id);
        if log.last().0.producer_id == id {
            seq![log.last().1] + rest
        } else {
            rest
        }
    }
}

/// What a sequence of producer history entries says, as plain values.
pub open spec fn records(v: Seq<ProducerHistoryEntry>) -> Seq<ProducerRecord> {
    v.map_values(|e: ProducerHistoryEntry| e@)
}

/// The live table and every acquisition's records, held in memory.
pub struct Ledger {
    names: Vec<String>,
    ids: Vec<ProducerId>,
    log: Vec<(PodHistoryEntry, ProducerHistoryEntry)>,
    table: Ghost<Map<Seq<char>, ProducerId>>,
}

impl View for Ledger {
    type V = LedgerState;

    closed spec fn view(&self) -> LedgerState {
        LedgerState {
            table: self.table@,
            log: self.log@.map_values(|e: (PodHistoryEntry, ProducerHistoryEntry)| (e.0, e.1@)),
        }
    }
}

impl Ledger {
    /// The live pairs are `names[i]` bound to `ids[i]`, one per name, and
    /// they are exactly the table.
    pub closed spec fn wf(&self) -> bool {
        &&& self.names@.len() == self.ids@.len()
        &&& forall|i: int|
            0 <= i < self.names@.len() ==> #[trigger] self.table@.contains_key(self.names@[i]@)
                && self.table@[self.names@[i]@] == self.ids@[i]
        &&& forall|k: Seq<char>|
            #[trigger] self.table@.contains_key(k) ==> exists|i: int|
                0 <= i < self.names@.len() && #[trigger] self.names@[i]@ == k
        &&& forall|i: int, j: int|
            0 <= i < j < self.names@.len() ==> #[trigger] self.names@[i]@ != #[trigger] self.names@[j]@
        &&& table_ok(self.table@)
    }

    /// An empty ledger: no live pod, no history.
    pub fn new() -> (r: Ledger)
        ensures
            r.wf(),
            r@.table == Map::<Seq<char>, ProducerId>::empty(),
            r@.log == Seq::<(PodHistoryEntry, ProducerRecord)>::empty(),
    {
        let r = Ledger {
            names: Vec::new(),
            ids: Vec::new(),
            log: Vec::new(),
            table: Ghost(Map::empty()),
        };
        assert(r@.log =~= Seq::<(PodHistoryEntry, ProducerRecord)>::empty());
        r
    }

    /// No live pod holds `0`, and no two live pods hold the same identifier.
    pub proof fn lemma_live_ids_distinct(&self)
        requires
            self.wf(),
        ensures
            table_ok(self@.table),
    {
    }

    proof fn lemma_in_use(&self, id: ProducerId)
        requires
            self.wf(),
        ensures
            in_use(self.table@, id) <==> self.ids@.contains(id),
    {
        if in_use(self.table@, id) {
            let k = choose|k: Seq<char>| #[trigger] self.table@.contains_key(k) && self.table@[k] == id;
            let i = choose|i: int| 0 <= i < self.names@.len() && #[trigger] self.names@[i]@ == k;
            assert(self.ids@[i] == id);
        }
        if self.ids@.contains(id) {
            let i = choose|i: int| 0 <= i < self.ids@.len() && self.ids@[i] == id;
            assert(self.table@.contains_key(self.names@[i]@));
        }
    }

    /// Where the pod `name` stands among the live pairs.
    fn position(&self, name: &String) -> (r: Option<usize>)
        requires
            self.wf(),
        ensures
            r matches Some(i) ==> i < self.names@.len() && self.names@[i as int]@ == name@,
            r is None <==> !self.table@.contains_key(name@),
    {
        let mut i: usize = 0;
        while i < self.names.len()
            invariant
                self.wf(),
                i <= self.names@.len(),
                forall|j: int| 0 <= j < i ==> #[trigger] self.names@[j]@ != name@,
            decreases self.names@.len() - i,
        {
            if self.names[i] == *name {
                return Some(i);
            }
            i = i + 1;
        }
        proof {
            if self.table@.contains_key(name@) {
                let j = choose|j: int|
                    0 <= j < self.names@.len() && #[trigger] self.names@[j]@ == name@;
                assert(self.names@[j]@ != name@);
            }
        }
        None
    }

    /// The identifier bound to the pod `pod_name`, if it is live.
    pub fn producer_id(&self, pod_name: &str) -> (r: Option<ProducerId>)
        requires
            self.wf(),
        ensures
            r is Some <==> self@.table.contains_key(pod_name@),
            r matches Some(id) ==> id == self@.table[pod_name@],
    {
        let key = String::from_str(pod_name);
        match self.position(&key) {
            Some(i) => Some(self.ids[i]),
            None => None,
        }
    }

    /// Every identifier held by a live pod.
    pub fn active_ids(&self) -> (r: Vec<ProducerId>)
        requires
            self.wf(),
        ensures
            forall|id: ProducerId| r@.contains(id) <==> in_use(self@.table, id),
    {
        proof {
            assert forall|id: ProducerId| self.ids@.contains(id) <==> in_use(self@.table, id) by {
                self.lemma_in_use(id);
            }
        }
        self.ids.clone()
    }

    /// Binds `pod_name` to an identifier, its own where it is live and a
    /// fresh one otherwise, and appends the acquisition at `at` to the
    /// history.
    pub fn acquire(&mut self, pod_name: &str, at: Timestamp) -> (r: Result<ProducerId, EngineError>)
        requires
            old(self).wf(),
        ensures
            final(self).wf(),
            r is Ok <==> (pod_name@.len() > 0 && (old(self)@.table.contains_key(pod_name@)
                || can_mint(old(self)@.table))),
            r matches Err(e) ==> final(self)@ == old(self)@ && (if pod_name@.len() == 0 {
                is_empty_name_error(e)
            } else {
                e is Exhausted
            }),
            r matches Ok(id) ==> acquire_resolves(old(self)@, pod_name@, id) && final(self)@
                == acquire_step(old(self)@, pod_name@, id, at),
    {
        let key = String::from_str(pod_name);
        let pos = self.position(&key);
        let existing = match pos {
            Some(i) => Some(self.ids[i]),
            None => None,
        };
        let active = self.ids.clone();
        proof {
            assert forall|v: ProducerId| is_free(active@, v) <==> (v != 0 && !in_use(self.table@, v)) by {
                self.lemma_in_use(v);
            }
            if some_free(active@) {
                let v = choose|v: ProducerId| #[trigger] is_free(active@, v);
                assert(!in_use(self.table@, v));
            }
            if can_mint(self.table@) {
                let v = choose|v: ProducerId| v != 0 && !#[trigger] in_use(self.table@, v);
                assert(is_free(active@, v));
            }
        }
        let a = plan_acquire(pod_name, existing, &active, at)?;
        let id = a.producer_id;
        let ghost old_table = self.table@;
        let ghost old_names = self.names@;
        assert(acquire_resolves(old(self)@, pod_name@, id));
        match pos {
            Some(i) => {
                assert(self.table@.insert(pod_name@, id) =~= self.table@);
            },
            None => {
                proof {
                    self.lemma_in_use(id);
                    assert forall|j: int| 0 <= j < self.names@.len() implies #[trigger] self.names@[j]@ != pod_name@ by {
                        assert(self.table@.contains_key(self.names@[j]@));
                    }
                }
                self.names.push(key);
                self.ids.push(id);
            },
        }
        self.table = Ghost(old_table.insert(pod_name@, id));
        self.log.push((a.pod_entry, a.producer_entry));
        proof {
            let n = self.names@.len();
            assert forall|k: Seq<char>| #[trigger] self.table@.contains_key(k) implies exists|i: int|
                0 <= i < n && #[trigger] self.names@[i]@ == k by {
                if k == pod_name@ {
                    if pos is None {
                        assert(self.names@[n - 1]@ == k);
                    } else {
                        let i = pos->Some_0;
                        assert(self.names@[i as int]@ == k);
                    }
                } else {
                    assert(old_table.contains_key(k));
                    let i = choose|i: int| 0 <= i < old_names.len() && #[trigger] old_names[i]@ == k;
                    assert(self.names@[i]@ == k);
                }
            }
            assert forall|k1: Seq<char>, k2: Seq<char>|
                #[trigger] self.table@.contains_key(k1) && #[trigger] self.table@.contains_key(k2) && k1 != k2
                    implies self.table@[k1] != self.table@[k2] by {
                if k1 != pod_name@ && k2 != pod_name@ {
                    assert(old_table.contains_key(k1) && old_table.contains_key(k2));
                } else if k1 == pod_name@ && pos is None {
                    assert(old_table.contains_key(k2));
                } else if k2 == pod_name@ && pos is None {
                    assert(old_table.contains_key(k1));
                } else if k1 == pod_name@ {
                    assert(old_table.contains_key(k1) && old_table.contains_key(k2));
                } else {
                    assert(old_table.contains_key(k1) && old_table.contains_key(k2));
                }
            }
            assert(self@.log =~= acquire_step(old(self)@, pod_name@, id, at).log);
            assert(self@.table =~= acquire_step(old(self)@, pod_name@, id, at).table);
            assert(self@ == acquire_step(old(self)@, pod_name@, id, at));
        }
        assert(acquire_resolves(old(self)@, pod_name@, id));
        Ok(id)
    }

    /// Removes the binding of `pod_name` where there is one; the history is
    /// left as it is.
    pub fn release(&mut self, pod_name: &str) -> (r: Result<(), EngineError>)
        requires
            old(self).wf(),
        ensures
            final(self).wf(),
            r is Ok <==> pod_name@.len() > 0,
            r matches Err(e) ==> final(self)@ == old(self)@ && is_empty_name_error(e),
            r is Ok ==> final(self)@ == release_step(old(self)@, pod_name@),
    {
        check_pod_name(pod_name)?;
        let key = String::from_str(pod_name);
        match self.position(&key) {
            None => {
                assert(self.table@.remove(pod_name@) =~= self.table@);
            },
            Some(i) => {
                let ghost old_names = self.names@;
                let ghost old_ids = self.ids@;
                let ghost old_table = self.table@;
                self.names.remove(i);
                self.ids.remove(i);
                self.table = Ghost(old_table.remove(pod_name@));
                proof {
                    assert forall|j: int| 0 <= j < self.names@.len() implies #[trigger] self.table@.contains_key(self.names@[j]@)
                        && self.table@[self.names@[j]@] == self.ids@[j] by {
                        let j0 = if j < i { j } else { j + 1 };
                        assert(self.names@[j] == old_names[j0] && self.ids@[j] == old_ids[j0]);
                        assert(old_names[j0]@ != old_names[i as int]@);
                        assert(old_table.contains_key(old_names[j0]@));
                    }
                    assert forall|k: Seq<char>| #[trigger] self.table@.contains_key(k) implies exists|j: int|
                        0 <= j < self.names@.len() && #[trigger] self.names@[j]@ == k by {
                        let j0 = choose|j: int| 0 <= j < old_names.len() && #[trigger] old_names[j]@ == k;
                        if j0 < i {
                            assert(self.names@[j0]@ == k);
                        } else {
                            assert(j0 != i);
                            assert(self.names@[j0 - 1]@ == k);
                        }
                    }
                    assert forall|a: int, b: int| 0 <= a < b < self.names@.len() implies #[trigger] self.names@[a]@ != #[trigger] self.names@[b]@ by {
                        let a0 = if a < i { a } else { a + 1 };
                        let b0 = if b < i { b } else { b + 1 };
                        assert(old_names[a0]@ != old_names[b0]@);
                    }
                }
            },
        }
        Ok(())
    }

    /// The pod's history: the record of each of its acquisitions, newest
    /// first; empty for a pod that never acquired.
    pub fn pod_history(&self, pod_name: &str) -> (r: Vec<PodHistoryEntry>)
        ensures
            r@ == pod_history_of(self@.log, pod_name@),
    {
        let key = String::from_str(pod_name);
        let mut out: Vec<PodHistoryEntry> = Vec::new();
        let mut i: usize = 0;
        while i < self.log.len()
            invariant
                i <= self@.log.len(),
                self@.log.len() == self.log@.len(),
                key@ == pod_name@,
                out@ == pod_history_of(self@.log.take(i as int), pod_name@),
            decreases self.log@.len() - i,
        {
            let ghost prefix = self@.log.take(i + 1);
            assert(prefix.drop_last() =~= self@.log.take(i as int));
            assert(prefix.last() == self@.log[i as int]);
            if self.log[i].1.pod_name == key {
                out.insert(0, self.log[i].0);
            }
            i = i + 1;
        }
        assert(self@.log.take(self@.log.len() as int) =~= self@.log);
        out
    }

    /// The identifier's history: the record of each acquisition that
    /// settled on it, newest first; empty for one never handed out.
    pub fn producer_history(&self, producer_id: ProducerId) -> (r: Vec<ProducerHistoryEntry>)
        ensures
            records(r@) == producer_history_of(self@.log, producer_id),
    {
        let mut out: Vec<ProducerHistoryEntry> = Vec::new();
        let mut i: usize = 0;
        while i < self.log.len()
            invariant
                i <= self@.log.len(),
                self@.log.len() == self.log@.len(),
                records(out@) == producer_history_of(self@.log.take(i as int), producer_id),
            decreases self.log@.len() - i,
        {
            let ghost prefix = self@.log.take(i + 1);
            let ghost before = out@;
            assert(prefix.drop_last() =~= self@.log.take(i as int));
            assert(prefix.last() == self@.log[i as int]);
            if self.log[i].0.producer_id == producer_id {
                let e = self.log[i].1.clone();
                out.insert(0, e);
                assert(records(out@) =~= seq![e@] + records(before));
            }
            i = i + 1;
        }
        assert(self@.log.take(self@.log.len() as int) =~= self@.log);
        out
    }
}

} // verus!
