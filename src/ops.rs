use vstd::prelude::*;

verus! {

/// A key or a value carried by the protocol; only unsigned integers so far.
#[derive(Clone, Copy, Debug, PartialEq, Eq, Structural)]
pub enum KeyValueType {
    Int(u64),
}

/// The integer that a key or value stands for.
pub open spec fn kv_int(v: KeyValueType) -> u64 {
    match v {
        KeyValueType::Int(n) => n,
    }
}

impl KeyValueType {
    /// The integer held by this key or value.
    pub fn as_u64(&self) -> (r: u64)
        ensures
            r == kv_int(*self),
    {
        match self {
            KeyValueType::Int(n) => *n,
        }
    }
}

/// One operation of a request batch.
#[derive(Clone, Copy, Debug, PartialEq, Eq, Structural)]
pub enum Operation {
    Read { key: KeyValueType },
    Insert { key: KeyValueType, value: KeyValueType },
    Remove { key: KeyValueType },
    Increment { key: KeyValueType },
    Close,
}

/// The key an operation addresses (none for `Close`).
pub open spec fn op_key(op: Operation) -> u64
    recommends
        !(op is Close),
{
    match op {
        Operation::Read { key } => kv_int(key),
        Operation::Insert { key, .. } => kv_int(key),
        Operation::Remove { key } => kv_int(key),
        Operation::Increment { key } => kv_int(key),
        Operation::Close => 0,
    }
}

/// The result of one operation: a value, or a failure with a message.
#[derive(Clone, Debug)]
pub enum OperationResult {
    Success(KeyValueType),
    Failure(String),
}

/// What a result reports: `Some(value)` on success, `None` on failure.
pub open spec fn result_value(r: OperationResult) -> Option<u64> {
    match r {
        OperationResult::Success(v) => Some(kv_int(v)),
        OperationResult::Failure(_) => None,
    }
}

/// A failure result carries an empty message.
pub open spec fn result_wf(r: OperationResult) -> bool {
    match r {
        OperationResult::Success(_) => true,
        OperationResult::Failure(s) => s@.len() == 0,
    }
}

impl OperationResult {
    /// Whether the operation succeeded.
    pub fn is_success(&self) -> (r: bool)
        ensures
            r == (result_value(*self) is Some),
    {
        match self {
            OperationResult::Success(_) => true,
            OperationResult::Failure(_) => false,
        }
    }
}

/// The stored value plus one, wrapping at the top of `u64`.
pub open spec fn succ(v: u64) -> u64 {
    if v == u64::MAX {
        0
    } else {
        (v + 1) as u64
    }
}

/// The value a key maps to, if any.
pub open spec fn lookup(m: Map<u64, u64>, k: u64) -> Option<u64> {
    if m.contains_key(k) {
        Some(m[k])
    } else {
        None
    }
}

/// The map with no entries.
pub open spec fn empty_map() -> Map<u64, u64> {
    Map::empty()
}

/// The map after `op` has run on `m`.
pub open spec fn op_effect(m: Map<u64, u64>, op: Operation) -> Map<u64, u64> {
    match op {
        Operation::Insert { key, value } => m.insert(kv_int(key), kv_int(value)),
        Operation::Remove { key } => m.remove(kv_int(key)),
        Operation::Increment { key } => if m.contains_key(kv_int(key)) {
            m.insert(kv_int(key), succ(m[kv_int(key)]))
        } else {
            m
        },
        _ => m,
    }
}

/// What `op` reports when it runs on `m`.
///
/// Insert reports the previous value, or the inserted one when the key was
/// absent. Increment stores the value plus one and reports the value plus two.
pub open spec fn op_outcome(m: Map<u64, u64>, op: Operation) -> Option<u64> {
    match op {
        Operation::Read { key } => lookup(m, kv_int(key)),
        Operation::Insert { key, value } => if m.contains_key(kv_int(key)) {
            Some(m[kv_int(key)])
        } else {
            Some(kv_int(value))
        },
        Operation::Remove { key } => lookup(m, kv_int(key)),
        Operation::Increment { key } => if m.contains_key(kv_int(key)) {
            Some(succ(succ(m[kv_int(key)])))
        } else {
            None
        },
        Operation::Close => None,
    }
}

/// The control message that fixes the topology of a run.
#[derive(Clone, Copy, Debug)]
pub struct HandShakeRequest {
    pub client_threads: usize,
    pub server_threads: usize,
    pub ops_per_req: usize,
    pub capacity: usize,
    pub key_type: KeyValueType,
    pub value_type: KeyValueType,
}

/// One batch of operations, in the structured encoding.
#[derive(Clone, Debug)]
pub struct Request {
    pub operations: Vec<Operation>,
}

/// The reply to one batch, in the structured encoding.
#[derive(Clone, Debug)]
pub struct OperationResults {
    pub results: Vec<OperationResult>,
}

} // verus!
