//! The records of the history logs and the library's error type.
use vstd::prelude::*;

verus! {

/// A producer identifier: a 16-bit value, of which `0` is never handed out.
pub type ProducerId = u16;

/// A UTC instant: whole seconds since the Unix epoch and the nanoseconds
/// past that second.
#[derive(Clone, Copy, Debug, PartialEq, Eq, Structural)]
pub struct Timestamp {
    pub secs: i64,
    pub nanos: u32,
}

/// One record of a pod's history: the identifier it was given, and when.
#[derive(Clone, Copy, Debug, PartialEq, Eq, Structural)]
pub struct PodHistoryEntry {
    pub producer_id: ProducerId,
    pub date: Timestamp,
}

/// One record of a producer identifier's history: the pod it was given to,
/// and when.
#[derive(Debug)]
pub struct ProducerHistoryEntry {
    pub pod_name: String,
    pub date: Timestamp,
}

/// What a producer history record says, as plain values.
pub struct ProducerRecord {
    pub pod_name: Seq<char>,
    pub date: Timestamp,
}

impl View for ProducerHistoryEntry {
    type V = ProducerRecord;

    open spec fn view(&self) -> ProducerRecord {
        ProducerRecord { pod_name: self.pod_name@, date: self.date }
    }
}

impl Clone for ProducerHistoryEntry {
    fn clone(&self) -> (r: Self)
        ensures
            r@ == self@,
    {
        ProducerHistoryEntry { pod_name: self.pod_name.clone(), date: self.date }
    }
}

/// The ways an operation fails.
#[derive(Debug, PartialEq, Eq)]
pub enum EngineError {
    /// A request could not be read or decoded.
    Transport(String),
    /// The backing store was unreachable or answered with a failure.
    Store(String),
    /// A value read back from the store is not a history record.
    Decode(String),
    /// A history record could not be encoded for the store.
    Encode(String),
    /// The pod name is empty.
    InvalidInput(String),
    /// Every non-zero identifier is in use, so none can be minted.
    Exhausted(String),
}

impl EngineError {
    /// The human-readable description carried by the error.
    pub fn message(&self) -> (r: String)
        ensures
            r@ == match self {
                EngineError::Transport(m) => m@,
                EngineError::Store(m) => m@,
                EngineError::Decode(m) => m@,
                EngineError::Encode(m) => m@,
                EngineError::InvalidInput(m) => m@,
                EngineError::Exhausted(m) => m@,
            },
    {
        match self {
            EngineError::Transport(m) => m.clone(),
            EngineError::Store(m) => m.clone(),
            EngineError::Decode(m) => m.clone(),
            EngineError::Encode(m) => m.clone(),
            EngineError::InvalidInput(m) => m.clone(),
            EngineError::Exhausted(m) => m.clone(),
        }
    }
}

} // verus!
