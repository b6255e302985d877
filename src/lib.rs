//! Allocation of small, stable producer identifiers to named pods, with an
//! append-only audit trail of every acquisition.
//!
//! The store that holds the live table and the history logs is outside this
//! library: [`engine`] decides what an operation reads and writes, and
//! [`ledger`] is an in-process store on which every operation and its laws are
//! proved end to end.
use vstd::prelude::*;

pub mod entry;
pub mod keys;
pub mod minting;
pub mod engine;
pub mod ledger;
pub mod laws;
pub mod dispatch;

verus! {

} // verus!
