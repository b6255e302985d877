//! The decisions of each operation, apart from the store that carries them out.
//!
//! `acquire` reads the identifiers in use, the pod's binding and the clock, then
//! [`plan_acquire`] decides the identifier and the three writes that follow:
//! the binding and one record in each history log.
use vstd::prelude::*;
use crate::entry::{
    EngineError, PodHistoryEntry, ProducerHistoryEntry, ProducerId, ProducerRecord, Timestamp,
};
use crate::keys::{pod_key, pod_key_of, producer_key, producer_key_of};
use crate::minting::{is_free, new_id, some_free};

verus! {

/// What one `acquire` resolved and what it appends to the two history logs.
pub struct Acquisition {
    /// The identifier now bound to the pod.
    pub producer_id: ProducerId,
    /// Key of the pod's history list.
    pub pod_key: String,
    /// Key of the identifier's history list.
    pub producer_key: String,
    /// The record appended to the pod's history.
    pub pod_entry: PodHistoryEntry,
    /// The record appended to the identifier's history.
    pub producer_entry: ProducerHistoryEntry,
}

/// `a` is the acquisition of `id` by the pod named `name` at `at`.
pub open spec fn acquisition_of(
    a: Acquisition,
    name: Seq<char>,
    id: ProducerId,
    at: Timestamp,
) -> bool {
    &&& a.producer_id == id
    &&& a.pod_key@ == pod_key_of(name)
    &&& a.producer_key@ == producer_key_of(id)
    &&& a.pod_entry == PodHistoryEntry { producer_id: id, date: at }
    &&& a.producer_entry@ == ProducerRecord { pod_name: name, date: at }
}

/// The identifier an `acquire` settles on: the pod's binding where it has
/// one, else one that is neither `0` nor in use.
pub open spec fn resolves_to(
    existing: Option<ProducerId>,
    active: Seq<ProducerId>,
    id: ProducerId,
) -> bool {
    match existing {
        Some(v) => id == v,
        None => is_free(active, id),
    }
}

/// The error text for an empty pod name.
pub const EMPTY_POD_NAME: &'static str = "pod name can't be empty";

/// `e` is the error that an empty pod name gets.
pub open spec fn is_empty_name_error(e: EngineError) -> bool {
    e matches EngineError::InvalidInput(m) && m@ == EMPTY_POD_NAME@
}

/// Rejects an empty pod name.
pub fn check_pod_name(pod_name: &str) -> (r: Result<(), EngineError>)
    ensures
        r is Ok <==> pod_name@.len() > 0,
        r matches Err(e) ==> is_empty_name_error(e),
{
    if pod_name.is_empty() {
        Err(EngineError::InvalidInput(String::from_str(EMPTY_POD_NAME)))
    } else {
        Ok(())
    }
}

/// The identifier for a pod whose binding is `existing`, given the
/// identifiers in `active`: the binding itself, or a freshly minted one.
pub fn resolve_id(existing: Option<ProducerId>, active: &Vec<ProducerId>) -> (r: Result<
    ProducerId,
    EngineError,
>)
    ensures
        r is Ok <==> (existing is Some || some_free(active@)),
        r matches Ok(id) ==> resolves_to(existing, active@, id),
        r matches Err(e) ==> e is Exhausted,
{
    match existing {
        Some(v) => Ok(v),
        None => new_id(active),
    }
}

/// The records and keys of the acquisition of `id` by `pod_name` at `at`.
pub fn record_acquisition(pod_name: &str, id: ProducerId, at: Timestamp) -> (a: Acquisition)
    ensures
        acquisition_of(a, pod_name@, id, at),
{
    Acquisition {
        producer_id: id,
        pod_key: pod_key(pod_name),
        producer_key: producer_key(id),
        pod_entry: PodHistoryEntry { producer_id: id, date: at },
        producer_entry: ProducerHistoryEntry { pod_name: String::from_str(pod_name), date: at },
    }
}

/// Decides an `acquire` of `pod_name` at time `at`, whose binding in the
/// live table is `existing` while the table's identifiers are `active`.
pub fn plan_acquire(
    pod_name: &str,
    existing: Option<ProducerId>,
    active: &Vec<ProducerId>,
    at: Timestamp,
) -> (r: Result<Acquisition, EngineError>)
    ensures
        r is Ok <==> (pod_name@.len() > 0 && (existing is Some || some_free(active@))),
        r matches Err(e) ==> (if pod_name@.len() == 0 {
            is_empty_name_error(e)
        } else {
            e is Exhausted
        }),
        r matches Ok(a) ==> resolves_to(existing, active@, a.producer_id) && acquisition_of(
            a,
            pod_name@,
            a.producer_id,
            at,
        ),
{
    check_pod_name(pod_name)?;
    let id = resolve_id(existing, active)?;
    Ok(record_acquisition(pod_name, id, at))
}

/// The entries of a history log whose stored records decoded to `decoded`
/// (`None` where one did not): all of them in order, or an error if any
/// record failed to decode.
pub fn collect_history<T>(decoded: Vec<Option<T>>) -> (r: Result<Vec<T>, EngineError>)
    ensures
        r is Ok <==> (forall|i: int| 0 <= i < decoded@.len() ==> (#[trigger] decoded@[i]) is Some),
        r matches Ok(v) ==> v@.len() == decoded@.len() && (forall|i: int|
            0 <= i < v@.len() ==> decoded@[i] == Some(#[trigger] v@[i])),
        r matches Err(e) ==> e is Decode,
{
    let ghost orig = decoded@;
    let mut rest = decoded;
    let mut reversed: Vec<T> = Vec::new();
    while rest.len() > 0
        invariant
            orig == decoded@,
            rest@ == orig.take(rest@.len() as int),
            rest@.len() + reversed@.len() == orig.len(),
            forall|i: int|
                0 <= i < reversed@.len() ==> orig[orig.len() - 1 - i] == Some(
                    #[trigger] reversed@[i],
                ),
        decreases rest@.len(),
    {
        let ghost k = rest@.len() - 1;
        assert(orig.take(rest@.len() as int)[k] == orig[k]);
        let last = rest.pop().unwrap();
        assert(rest@ =~= orig.take(rest@.len() as int));
        assert(last == orig[k]);
        match last {
            Some(x) => reversed.push(x),
            None => {
                assert(0 <= k < decoded@.len() && !(decoded@[k] is Some));
                return Err(EngineError::Decode(String::from_str("malformed history record")));
            },
        }
    }
    let mut out: Vec<T> = Vec::new();
    let ghost n = orig.len();
    while reversed.len() > 0
        invariant
            orig == decoded@,
            n == orig.len(),
            reversed@.len() + out@.len() == n,
            forall|i: int|
                0 <= i < reversed@.len() ==> orig[n - 1 - i] == Some(#[trigger] reversed@[i]),
            forall|i: int| 0 <= i < out@.len() ==> orig[i] == Some(#[trigger] out@[i]),
        decreases reversed@.len(),
    {
        let x = reversed.pop().unwrap();
        out.push(x);
    }
    assert forall|i: int| 0 <= i < orig.len() implies (#[trigger] orig[i]) is Some by {
        assert(orig[i] == Some(out@[i]));
    }
    Ok(out)
}

} // verus!
