//! What holds across calls of the ledger's operations, stated over
//! [`LedgerState`] and the steps that `acquire` and `release` take on it.
use vstd::prelude::*;
use crate::entry::{PodHistoryEntry, ProducerId, ProducerRecord, Timestamp};
use crate::ledger::{
    acquire_resolves, acquire_step, in_use, pod_history_of, producer_history_of, release_step,
    table_ok, LedgerState,
};

verus! {

/// Some record of the history `h` names the pod `name`.
pub open spec fn names_pod(h: Seq<ProducerRecord>, name: Seq<char>) -> bool {
    exists|i: int| 0 <= i < h.len() && (#[trigger] h[i]).pod_name == name
}

/// Acquiring again, with no release in between, settles on the same
/// identifier as the first time.
pub proof fn lemma_reacquire_same_id(
    s: LedgerState,
    name: Seq<char>,
    first: ProducerId,
    at: Timestamp,
    second: ProducerId,
)
    requires
        acquire_resolves(s, name, first),
        acquire_resolves(acquire_step(s, name, first, at), name, second),
    ensures
        second == first,
{
}

/// After a release, an acquire of the same pod may settle on any identifier
/// that is neither `0` nor held by another live pod; the one it held before
/// is among them, and so is any other free one.
pub proof fn lemma_release_then_acquire(s: LedgerState, name: Seq<char>, id: ProducerId)
    requires
        table_ok(s.table),
    ensures
        acquire_resolves(release_step(s, name), name, id) <==> (id != 0 && !in_use(
            s.table.remove(name),
            id,
        )),
        s.table.contains_key(name) ==> acquire_resolves(release_step(s, name), name, s.table[name]),
{
    if s.table.contains_key(name) {
        let t = s.table.remove(name);
        if in_use(t, s.table[name]) {
            let k = choose|k: Seq<char>| #[trigger] t.contains_key(k) && t[k] == s.table[name];
            assert(s.table.contains_key(k) && k != name);
        }
    }
}

/// Releasing a pod that has no binding changes nothing.
pub proof fn lemma_release_unbound(s: LedgerState, name: Seq<char>)
    requires
        !s.table.contains_key(name),
    ensures
        release_step(s, name) == s,
{
    assert(s.table.remove(name) =~= s.table);
}

/// Each acquire puts exactly one record, of the identifier and time it
/// settled on, at the front of the pod's history, whether or not the
/// identifier changed; the history of every other pod is left as it was.
pub proof fn lemma_pod_history_grows(
    s: LedgerState,
    name: Seq<char>,
    id: ProducerId,
    at: Timestamp,
    other: Seq<char>,
)
    ensures
        pod_history_of(acquire_step(s, name, id, at).log, name) == seq![
            PodHistoryEntry { producer_id: id, date: at },
        ] + pod_history_of(s.log, name),
        pod_history_of(acquire_step(s, name, id, at).log, name).len() == pod_history_of(
            s.log,
            name,
        ).len() + 1,
        other != name ==> pod_history_of(acquire_step(s, name, id, at).log, other)
            == pod_history_of(s.log, other),
{
    let log = acquire_step(s, name, id, at).log;
    assert(log.drop_last() =~= s.log);
}

/// Each acquire puts exactly one record, of the pod and time, at the front
/// of the history of the identifier it settled on; the history of every
/// other identifier is left as it was.
pub proof fn lemma_producer_history_grows(
    s: LedgerState,
    name: Seq<char>,
    id: ProducerId,
    at: Timestamp,
    other: ProducerId,
)
    ensures
        producer_history_of(acquire_step(s, name, id, at).log, id) == seq![
            ProducerRecord { pod_name: name, date: at },
        ] + producer_history_of(s.log, id),
        other != id ==> producer_history_of(acquire_step(s, name, id, at).log, other)
            == producer_history_of(s.log, other),
{
    let log = acquire_step(s, name, id, at).log;
    assert(log.drop_last() =~= s.log);
}

/// An identifier's history names a pod after an acquire exactly when it
/// named it before, or that acquire was the pod's and settled on the
/// identifier. A release leaves every history as it was.
pub proof fn lemma_producer_history_names_pod(
    s: LedgerState,
    name: Seq<char>,
    id: ProducerId,
    at: Timestamp,
    pod: Seq<char>,
    producer_id: ProducerId,
)
    ensures
        names_pod(producer_history_of(acquire_step(s, name, id, at).log, producer_id), pod) <==> (
        names_pod(producer_history_of(s.log, producer_id), pod) || (producer_id == id && pod
            == name)),
        producer_history_of(release_step(s, name).log, producer_id) == producer_history_of(
            s.log,
            producer_id,
        ),
{
    lemma_producer_history_grows(s, name, id, at, producer_id);
    let before = producer_history_of(s.log, producer_id);
    let after = producer_history_of(acquire_step(s, name, id, at).log, producer_id);
    if producer_id == id {
        let rec = ProducerRecord { pod_name: name, date: at };
        assert(after == seq![rec] + before);
        if names_pod(after, pod) {
            let i = choose|i: int| 0 <= i < after.len() && (#[trigger] after[i]).pod_name == pod;
            if i > 0 {
                assert(before[i - 1] == after[i]);
            }
        }
        if names_pod(before, pod) {
            let i = choose|i: int| 0 <= i < before.len() && (#[trigger] before[i]).pod_name == pod;
            assert(after[i + 1] == before[i]);
        }
        if pod == name {
            assert(after[0] == rec);
        }
    }
}

/// What an acquire appends is read back unchanged, identifier, pod name and
/// time alike, at the front of the pod's history and of the identifier's.
pub proof fn lemma_round_trip(s: LedgerState, name: Seq<char>, id: ProducerId, at: Timestamp)
    ensures
        pod_history_of(acquire_step(s, name, id, at).log, name)[0] == (PodHistoryEntry {
            producer_id: id,
            date: at,
        }),
        producer_history_of(acquire_step(s, name, id, at).log, id)[0] == (ProducerRecord {
            pod_name: name,
            date: at,
        }),
{
    lemma_pod_history_grows(s, name, id, at, name);
    lemma_producer_history_grows(s, name, id, at, id);
}

/// An identifier's history names a pod exactly when some acquisition in the
/// log was that pod's and settled on that identifier.
pub proof fn lemma_producer_history_of_log(
    log: Seq<(PodHistoryEntry, ProducerRecord)>,
    producer_id: ProducerId,
    pod: Seq<char>,
)
    ensures
        names_pod(producer_history_of(log, producer_id), pod) <==> exists|i: int|
            0 <= i < log.len() && (#[trigger] log[i]).0.producer_id == producer_id && log[i].1.pod_name
                == pod,
    decreases log.len(),
{
    if log.len() > 0 {
        let init = log.drop_last();
        lemma_producer_history_of_log(init, producer_id, pod);
        let before = producer_history_of(init, producer_id);
        let after = producer_history_of(log, producer_id);
        let n = log.len() - 1;
        if names_pod(before, pod) {
            let j = choose|j: int| 0 <= j < init.len() && (#[trigger] init[j]).0.producer_id
                == producer_id && init[j].1.pod_name == pod;
            assert(log[j] == init[j]);
        }
        if exists|i: int| 0 <= i < log.len() && (#[trigger] log[i]).0.producer_id == producer_id
            && log[i].1.pod_name == pod {
            let i = choose|i: int| 0 <= i < log.len() && (#[trigger] log[i]).0.producer_id
                == producer_id && log[i].1.pod_name == pod;
            if i < n {
                assert(init[i] == log[i]);
            }
        }
        if log.last().0.producer_id == producer_id {
            assert(after == seq![log.last().1] + before);
            if names_pod(after, pod) {
                let i = choose|i: int| 0 <= i < after.len() && (#[trigger] after[i]).pod_name == pod;
                if i > 0 {
                    assert(before[i - 1] == after[i]);
                } else {
                    assert(log[n].1.pod_name == pod);
                }
            }
            if names_pod(before, pod) {
                let i = choose|i: int| 0 <= i < before.len() && (#[trigger] before[i]).pod_name == pod;
                assert(after[i + 1] == before[i]);
            }
            if log[n].1.pod_name == pod {
                assert(after[0] == log[n].1);
            }
        }
    }
}

} // verus!
