use vstd::prelude::*;
use crate::ops::HandShakeRequest;
use crate::table::MAX_SHARD_CAPACITY;

verus! {

/// The shard that owns `key` when there are `shard_count` shards.
pub fn shard_index(key: u64, shard_count: usize) -> (r: usize)
    requires
        shard_count > 0,
    ensures
        r == key % (shard_count as u64),
        r < shard_count,
{
    (key % (shard_count as u64)) as usize
}

/// Why a handshake cannot be served on this machine.
#[derive(Clone, Copy, Debug, PartialEq, Eq, Structural)]
pub enum SetupError {
    /// The handshake asks for no shard at all.
    NoShards,
    /// There are as many shards as cores, or more.
    TooManyShards,
    /// The shards and the control worker take every core, leaving none for the network.
    NoNetworkWorkers,
    /// The handshake announces no client connection.
    NoConnections,
}

/// How the workers of a run are laid out, fixed once by the handshake.
///
/// Worker 0 is the control worker, workers `1..=shards` own one shard each,
/// and the `network_workers` after them run the connections.
#[derive(Clone, Copy, Debug, PartialEq, Eq, Structural)]
pub struct Topology {
    pub shards: usize,
    pub network_workers: usize,
    pub connections: usize,
    pub ops_per_req: usize,
    pub shard_capacity: usize,
    pub pool_size: usize,
}

impl Topology {
    /// The layout derived from `cores` available cores: every part has at
    /// least one worker, and the pool fits in the cores.
    pub open spec fn wf(&self) -> bool {
        &&& self.shards > 0
        &&& self.network_workers > 0
        &&& self.connections > 0
        &&& self.shard_capacity <= MAX_SHARD_CAPACITY
        &&& self.pool_size == if 1 + self.shards + self.connections < 1 + self.shards + self.network_workers {
            1 + self.shards + self.connections
        } else {
            1 + self.shards + self.network_workers
        }
    }
}

/// The error, if any, that a handshake meets on `cores` cores.
pub open spec fn setup_error(cores: usize, h: HandShakeRequest) -> Option<SetupError> {
    if h.server_threads == 0 {
        Some(SetupError::NoShards)
    } else if h.server_threads >= cores {
        Some(SetupError::TooManyShards)
    } else if h.server_threads + 1 == cores {
        Some(SetupError::NoNetworkWorkers)
    } else if h.client_threads == 0 {
        Some(SetupError::NoConnections)
    } else {
        None
    }
}

/// Lays out the workers for a handshake on a machine with `cores` cores.
///
/// The pool takes one control worker, one worker per shard and one per
/// connection, capped at the number of cores; the cores past the shards run
/// the network. Each shard is sized for its share of the capacity among the
/// connections, up to `MAX_SHARD_CAPACITY`.
pub fn plan_topology(cores: usize, h: &HandShakeRequest) -> (r: Result<Topology, SetupError>)
    ensures
        setup_error(cores, *h) is Some <==> r is Err,
        r matches Err(e) ==> setup_error(cores, *h) == Some(e),
        r matches Ok(t) ==> {
            &&& t.wf()
            &&& t.shards == h.server_threads
            &&& t.connections == h.client_threads
            &&& t.network_workers == cores - h.server_threads - 1
            &&& t.ops_per_req == h.ops_per_req
            &&& t.shard_capacity == if h.capacity / h.client_threads <= MAX_SHARD_CAPACITY {
                h.capacity / h.client_threads
            } else {
                MAX_SHARD_CAPACITY
            }
            &&& t.pool_size <= cores
        },
{
    if h.server_threads == 0 {
        return Err(SetupError::NoShards);
    }
    if h.server_threads >= cores {
        return Err(SetupError::TooManyShards);
    }
    if h.server_threads + 1 == cores {
        return Err(SetupError::NoNetworkWorkers);
    }
    if h.client_threads == 0 {
        return Err(SetupError::NoConnections);
    }
    let network_workers = cores - h.server_threads - 1;
    let share = h.capacity / h.client_threads;
    let shard_capacity = if share <= MAX_SHARD_CAPACITY { share } else { MAX_SHARD_CAPACITY };
    let pool_size = if h.client_threads < network_workers {
        1 + h.server_threads + h.client_threads
    } else {
        cores
    };
    Ok(Topology {
        shards: h.server_threads,
        network_workers,
        connections: h.client_threads,
        ops_per_req: h.ops_per_req,
        shard_capacity,
        pool_size,
    })
}

/// The network worker that takes the `i`-th connection of a wave: the
/// connections are dealt round-robin over the network workers.
pub fn network_worker_index(t: &Topology, i: usize) -> (r: usize)
    requires
        t.wf(),
        i < t.connections,
    ensures
        r == t.shards + 1 + i % t.network_workers,
        t.shards < r < t.pool_size,
{
    proof {
        assert(i % t.network_workers <= i) by (nonlinear_arith)
            requires t.network_workers > 0;
        assert(i % t.network_workers < t.network_workers) by (nonlinear_arith)
            requires t.network_workers > 0;
    }
    t.shards + 1 + i % t.network_workers
}

} // verus!
