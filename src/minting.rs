//! Minting fresh producer identifiers by rejection sampling.
use vstd::prelude::*;
use crate::entry::{EngineError, ProducerId};

verus! {

/// How many random draws are made before the lowest free identifier is taken
/// instead. While the identifiers in use are a small part of the range, the
/// chance of reaching this many rejections is negligible.
pub const DRAW_LIMIT: u32 = 1048576;

/// `v` may be handed out next to the identifiers in `active`.
pub open spec fn is_free(active: Seq<ProducerId>, v: ProducerId) -> bool {
    v != 0 && !active.contains(v)
}

/// Some identifier is left to hand out next to those in `active`.
pub open spec fn some_free(active: Seq<ProducerId>) -> bool {
    exists|v: ProducerId| #[trigger] is_free(active, v)
}

/// Relies on rand::random::<u16>: a value of the 16-bit range from the
/// thread-local generator. Nothing is known of which one.
#[verifier::external_body]
fn draw_u16() -> (r: u16) {
    rand::random::<u16>()
}

/// One flag per 16-bit value: set for `0` and for every value of `active`.
fn taken_flags(active: &Vec<ProducerId>) -> (taken: Vec<bool>)
    ensures
        taken@.len() == 65536,
        forall|v: ProducerId| #[trigger] taken@[v as int] == !is_free(active@, v),
{
    let mut taken: Vec<bool> = Vec::new();
    let mut n: usize = 0;
    while n < 65536
        invariant
            n <= 65536,
            taken@.len() == n,
            forall|k: int| 0 <= k < n ==> !#[trigger] taken@[k],
        decreases 65536 - n,
    {
        taken.push(false);
        n = n + 1;
    }
    taken.set(0, true);
    let mut i: usize = 0;
    while i < active.len()
        invariant
            i <= active@.len(),
            taken@.len() == 65536,
            forall|v: ProducerId|
                #[trigger] taken@[v as int] == (v == 0 || active@.take(i as int).contains(v)),
        decreases active@.len() - i,
    {
        let a = active[i];
        taken.set(a as usize, true);
        let ghost before = active@.take(i as int);
        let ghost after = active@.take(i + 1);
        assert(after =~= before.push(a));
        assert forall|v: ProducerId|
            #[trigger] taken@[v as int] == (v == 0 || after.contains(v)) by {
            if before.contains(v) {
                let j = choose|j: int| 0 <= j < before.len() && before[j] == v;
                assert(after[j] == v);
            }
            if after.contains(v) && v != a {
                let j = choose|j: int| 0 <= j < after.len() && after[j] == v;
                assert(before[j] == v);
            }
            if v == a {
                assert(after[i as int] == v);
            }
        }
        i = i + 1;
    }
    assert(active@.take(active@.len() as int) =~= active@);
    taken
}

/// Mints an identifier that is neither `0` nor in `active`. It is drawn at
/// random among the 16-bit values, rejecting those in use; after
/// [`DRAW_LIMIT`] rejections the lowest free value is taken instead. Fails
/// only when every non-zero value is in use.
pub fn new_id(active: &Vec<ProducerId>) -> (r: Result<ProducerId, EngineError>)
    ensures
        r is Ok <==> some_free(active@),
        r matches Ok(v) ==> is_free(active@, v),
        r matches Err(e) ==> e is Exhausted,
{
    let taken = taken_flags(active);
    let mut lowest: usize = 1;
    while lowest < 65536 && taken[lowest]
        invariant
            1 <= lowest <= 65536,
            taken@.len() == 65536,
            forall|v: ProducerId| #[trigger] taken@[v as int] == !is_free(active@, v),
            forall|w: ProducerId| 1 <= w < lowest ==> #[trigger] taken@[w as int],
        decreases 65536 - lowest,
    {
        lowest = lowest + 1;
    }
    if lowest == 65536 {
        assert forall|v: ProducerId| !#[trigger] is_free(active@, v) by {
            if v != 0 {
                assert(taken@[v as int]);
            }
        }
        return Err(EngineError::Exhausted(String::from_str("no producer id is left")));
    }
    let fallback = lowest as ProducerId;
    assert(is_free(active@, fallback));
    let mut tries: u32 = 0;
    while tries < DRAW_LIMIT
        invariant
            taken@.len() == 65536,
            forall|v: ProducerId| #[trigger] taken@[v as int] == !is_free(active@, v),
        decreases DRAW_LIMIT - tries,
    {
        let d = draw_u16();
        if !taken[d as usize] {
            return Ok(d);
        }
        tries = tries + 1;
    }
    Ok(fallback)
}

} // verus!
