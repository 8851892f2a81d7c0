//! A sharded in-memory key-value store served over a batched wire protocol.
//!
//! Keys are routed to shards by `key mod shard_count`; each shard is owned by a
//! single worker, and a connection's batch is applied in request order.
pub mod binary;
pub mod dispatch;
pub mod laws;
pub mod ops;
pub mod routing;
pub mod scheduler;
pub mod table;
pub mod workloads;

pub use binary::{
    decode_binary_batch, encode_binary_reply, process_binary_batch, BinaryOutcome, DecodeError,
    RECORD_LEN,
};
pub use dispatch::{process_batch, route_batch, BatchOutcome, RoutedBatch, Shards};
pub use ops::{HandShakeRequest, KeyValueType, Operation, OperationResult, OperationResults, Request};
pub use routing::{network_worker_index, plan_topology, shard_index, SetupError, Topology};
pub use scheduler::{next_action, ConnAction, ConnEvent, FiberQueue};
pub use table::{Table, MAX_SHARD_CAPACITY};
pub use workloads::{create, Mix, Workload, WorkloadKind, PPM};
