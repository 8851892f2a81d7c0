use sharded_kv::{
    create, network_worker_index, next_action, plan_topology, ConnAction, ConnEvent, FiberQueue,
    HandShakeRequest, KeyValueType, Mix, SetupError, MAX_SHARD_CAPACITY, Workload, WorkloadKind,
};

fn handshake(client_threads: usize, server_threads: usize) -> HandShakeRequest {
    HandShakeRequest {
        client_threads,
        server_threads,
        ops_per_req: 4,
        capacity: 1000,
        key_type: KeyValueType::Int(0),
        value_type: KeyValueType::Int(0),
    }
}

#[test]
fn topology_on_enough_cores() {
    let t = plan_topology(8, &handshake(3, 2)).unwrap();
    assert_eq!(t.shards, 2);
    assert_eq!(t.network_workers, 5);
    assert_eq!(t.connections, 3);
    assert_eq!(t.pool_size, 6);
    assert_eq!(t.shard_capacity, 333);
    let t = plan_topology(4, &handshake(10, 1)).unwrap();
    assert_eq!(t.pool_size, 4);
}

#[test]
fn huge_capacity_is_capped() {
    let mut h = handshake(2, 1);
    h.capacity = usize::MAX;
    let t = plan_topology(4, &h).unwrap();
    assert_eq!(t.shard_capacity, MAX_SHARD_CAPACITY);
}

#[test]
fn topology_errors() {
    assert_eq!(plan_topology(4, &handshake(2, 4)), Err(SetupError::TooManyShards));
    assert_eq!(plan_topology(4, &handshake(2, 9)), Err(SetupError::TooManyShards));
    assert_eq!(plan_topology(4, &handshake(2, 3)), Err(SetupError::NoNetworkWorkers));
    assert_eq!(plan_topology(4, &handshake(2, 0)), Err(SetupError::NoShards));
    assert_eq!(plan_topology(4, &handshake(0, 1)), Err(SetupError::NoConnections));
}

#[test]
fn connections_are_dealt_round_robin() {
    let t = plan_topology(6, &handshake(5, 2)).unwrap();
    let workers: Vec<usize> = (0..5).map(|i| network_worker_index(&t, i)).collect();
    assert_eq!(workers, vec![3, 4, 5, 3, 4]);
}

#[test]
fn fibers_take_turns() {
    let mut q = FiberQueue::new();
    assert_eq!(q.next(), None);
    let a = q.spawn().unwrap();
    let b = q.spawn().unwrap();
    assert_eq!((a, b), (0, 1));
    assert_eq!(q.next(), Some(a));
    q.yield_now(a);
    assert_eq!(q.next(), Some(b));
    assert_eq!(q.next(), Some(a));
    assert_eq!(q.len(), 0);
    assert_eq!(q.next(), None);
}

#[test]
fn connection_steps() {
    assert_eq!(next_action(ConnEvent::WouldBlock), ConnAction::Yield);
    assert_eq!(next_action(ConnEvent::EndOfStream), ConnAction::Terminate);
    assert_eq!(next_action(ConnEvent::Undecodable), ConnAction::Terminate);
    assert_eq!(next_action(ConnEvent::Served { closed: true }), ConnAction::Terminate);
    assert_eq!(next_action(ConnEvent::Served { closed: false }), ConnAction::Reply);
}

#[test]
fn workload_kinds_parse() {
    assert_eq!(WorkloadKind::from_str("ReadHeavy"), Ok(WorkloadKind::ReadHeavy));
    assert_eq!(WorkloadKind::from_str("Exchange"), Ok(WorkloadKind::Exchange));
    assert_eq!(WorkloadKind::from_str("RapidGrow"), Ok(WorkloadKind::RapidGrow));
    assert_eq!(WorkloadKind::from_str("readheavy"), Err("unknown workload"));
    assert_eq!("Exchange".parse::<WorkloadKind>(), Ok(WorkloadKind::Exchange));
}

#[test]
fn named_workloads() {
    let w = create(WorkloadKind::ReadHeavy, 20, 4);
    assert_eq!(w.mix, Mix { read: 98, insert: 1, remove: 1, update: 0, upsert: 0 });
    assert_eq!(w.initial_cap_log2, 20);
    assert_eq!(w.prefill_ppm, 800000);
    assert_eq!(w.ops_ppm, 750000);
    assert_eq!(w.threads, 4);
    let w = create(WorkloadKind::RapidGrow, 10, 1);
    assert_eq!(w.mix, Mix { read: 5, insert: 80, remove: 5, update: 10, upsert: 0 });
    assert_eq!(w.prefill_ppm, 0);
    let w = create(WorkloadKind::Exchange, 10, 1);
    assert_eq!(w.mix, Mix { read: 10, insert: 40, remove: 40, update: 10, upsert: 0 });
    assert_eq!(w.prefill_ppm, 800000);
}

#[test]
fn workload_builders() {
    let mix = Mix { read: 100, insert: 0, remove: 0, update: 0, upsert: 0 };
    let mut w = Workload::new(2, mix);
    assert_eq!(w.initial_cap_log2, 25);
    assert_eq!(w.seed, None);
    w.initial_capacity_log2(12).prefill_fraction(500000).operations(2000000).operations_at_a_stretch(8).seed([7; 32]);
    assert_eq!(w.initial_cap_log2, 12);
    assert_eq!(w.prefill_ppm, 500000);
    assert_eq!(w.ops_ppm, 2000000);
    assert_eq!(w.ops_st, 8);
    assert_eq!(w.seed, Some([7; 32]));
}
