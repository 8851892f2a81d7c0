use vstd::prelude::*;
use dashmap::DashMap;
use crate::ops::{empty_map, op_effect, op_outcome, result_value, result_wf, succ, KeyValueType, Operation, OperationResult};

verus! {

#[verifier::external_type_specification]
#[verifier::external_body]
#[verifier::reject_recursive_types(K)]
#[verifier::reject_recursive_types(V)]
#[verifier::reject_recursive_types(S)]
pub struct ExDashMap<K, V, S>(DashMap<K, V, S>);

/// The entries that a concurrent map of integers holds.
pub uninterp spec fn dash_contents(m: DashMap<u64, u64>) -> Map<u64, u64>;

/// The largest number of entries a shard is sized for up front. Far larger
/// requests overflow the map's sizing arithmetic and panic.
pub const MAX_SHARD_CAPACITY: usize = 0x1000_0000;

/// Relies on `DashMap::with_capacity`: a new map holds no entries.
#[verifier::external_body]
fn dash_with_capacity(capacity: usize) -> (r: DashMap<u64, u64>)
    requires
        capacity <= MAX_SHARD_CAPACITY,
    ensures
        dash_contents(r) == empty_map(),
{
    DashMap::with_capacity(capacity)
}

/// Relies on `DashMap::get`: the value stored under `k`, if any.
#[verifier::external_body]
fn dash_get(m: &DashMap<u64, u64>, k: u64) -> (r: Option<u64>)
    ensures
        r == (if dash_contents(*m).contains_key(k) {
            Some(dash_contents(*m)[k])
        } else {
            None::<u64>
        }),
{
    m.get(&k).map(|e| *e)
}

/// Relies on `DashMap::insert`: stores `v` under `k` and hands back the value it replaced.
#[verifier::external_body]
fn dash_insert(m: &mut DashMap<u64, u64>, k: u64, v: u64) -> (r: Option<u64>)
    ensures
        dash_contents(*final(m)) == dash_contents(*old(m)).insert(k, v),
        r == (if dash_contents(*old(m)).contains_key(k) {
            Some(dash_contents(*old(m))[k])
        } else {
            None::<u64>
        }),
{
    m.insert(k, v)
}

/// Relies on `DashMap::remove`: drops the entry of `k` and hands back its value.
#[verifier::external_body]
fn dash_remove(m: &mut DashMap<u64, u64>, k: u64) -> (r: Option<u64>)
    ensures
        dash_contents(*final(m)) == dash_contents(*old(m)).remove(k),
        r == (if dash_contents(*old(m)).contains_key(k) {
            Some(dash_contents(*old(m))[k])
        } else {
            None::<u64>
        }),
{
    m.remove(&k).map(|e| e.1)
}

/// One shard: a map from integer keys to integer values, owned by one worker.
pub struct Table {
    map: DashMap<u64, u64>,
}

impl View for Table {
    type V = Map<u64, u64>;

    closed spec fn view(&self) -> Map<u64, u64> {
        dash_contents(self.map)
    }
}

fn failure() -> (r: OperationResult)
    ensures
        result_value(r) is None,
        result_wf(r),
{
    OperationResult::Failure(String::new())
}

impl Table {
    /// An empty shard, sized for `capacity` entries.
    pub fn with_capacity(capacity: usize) -> (t: Table)
        requires
            capacity <= MAX_SHARD_CAPACITY,
        ensures
            t@ == empty_map(),
    {
        Table { map: dash_with_capacity(capacity) }
    }

    /// The value stored under `key`, if any.
    pub fn get(&self, key: u64) -> (r: Option<u64>)
        ensures
            r == (if self@.contains_key(key) { Some(self@[key]) } else { None::<u64> }),
    {
        dash_get(&self.map, key)
    }

    /// Runs one operation on this shard and reports its result.
    pub fn apply(&mut self, op: Operation) -> (r: OperationResult)
        requires
            !(op is Close),
        ensures
            final(self)@ == op_effect(old(self)@, op),
            result_value(r) == op_outcome(old(self)@, op),
            result_wf(r),
    {
        match op {
            Operation::Read { key } => match dash_get(&self.map, key.as_u64()) {
                Some(v) => OperationResult::Success(KeyValueType::Int(v)),
                None => failure(),
            },
            Operation::Insert { key, value } => match dash_insert(&mut self.map, key.as_u64(), value.as_u64()) {
                Some(prev) => OperationResult::Success(KeyValueType::Int(prev)),
                None => OperationResult::Success(value),
            },
            Operation::Remove { key } => match dash_remove(&mut self.map, key.as_u64()) {
                Some(v) => OperationResult::Success(KeyValueType::Int(v)),
                None => failure(),
            },
            Operation::Increment { key } => {
                let k = key.as_u64();
                match dash_get(&self.map, k) {
                    Some(v) => {
                        let stored = if v == u64::MAX { 0 } else { v + 1 };
                        dash_insert(&mut self.map, k, stored);
                        let reported = if stored == u64::MAX { 0 } else { stored + 1 };
                        proof {
                            assert(stored == succ(v));
                        }
                        OperationResult::Success(KeyValueType::Int(reported))
                    },
                    None => failure(),
                }
            },
            Operation::Close => failure(),
        }
    }
}

} // verus!
