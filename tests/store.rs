use sharded_kv::{
    plan_topology, process_batch, route_batch, shard_index, HandShakeRequest, KeyValueType,
    Operation, OperationResult, Shards, Table,
};

fn kv(n: u64) -> KeyValueType {
    KeyValueType::Int(n)
}

fn value_of(r: &OperationResult) -> Option<u64> {
    match r {
        OperationResult::Success(KeyValueType::Int(n)) => Some(*n),
        OperationResult::Failure(msg) => {
            assert_eq!(msg, "");
            None
        }
    }
}

fn run_one(shards: &mut Shards, op: Operation) -> Option<u64> {
    let out = process_batch(shards, &vec![op]);
    assert!(!out.closed);
    assert_eq!(out.results.len(), 1);
    value_of(&out.results[0])
}

#[test]
fn shard_index_is_key_mod_count() {
    assert_eq!(shard_index(10, 3), 1);
    assert_eq!(shard_index(9, 3), 0);
    assert_eq!(shard_index(u64::MAX, 1), 0);
    assert_eq!(shard_index(u64::MAX, 10), 5);
}

#[test]
fn shard_index_repeats() {
    let first: Vec<usize> = (0..100u64).map(|k| shard_index(k * 7919, 6)).collect();
    let second: Vec<usize> = (0..100u64).map(|k| shard_index(k * 7919, 6)).collect();
    assert_eq!(first, second);
}

#[test]
fn scenario_handshake_insert_then_read() {
    let h = HandShakeRequest {
        client_threads: 2,
        server_threads: 2,
        ops_per_req: 1,
        capacity: 1024,
        key_type: kv(0),
        value_type: kv(0),
    };
    let t = plan_topology(8, &h).unwrap();
    assert_eq!(t.shards, 2);
    assert_eq!(t.ops_per_req, 1);
    assert_eq!(t.shard_capacity, 512);
    let mut shards = Shards::new(t.shards, t.shard_capacity);
    assert_eq!(run_one(&mut shards, Operation::Insert { key: kv(5), value: kv(42) }), Some(42));
    assert_eq!(run_one(&mut shards, Operation::Read { key: kv(5) }), Some(42));
}

#[test]
fn scenario_increment_reports_plus_two() {
    let mut shards = Shards::new(2, 16);
    assert_eq!(run_one(&mut shards, Operation::Increment { key: kv(7) }), None);
    assert_eq!(run_one(&mut shards, Operation::Insert { key: kv(7), value: kv(10) }), Some(10));
    assert_eq!(run_one(&mut shards, Operation::Increment { key: kv(7) }), Some(12));
    assert_eq!(shards.get(7), Some(11));
}

#[test]
fn increment_wraps_at_the_top() {
    let mut shards = Shards::new(1, 4);
    run_one(&mut shards, Operation::Insert { key: kv(1), value: kv(u64::MAX) });
    assert_eq!(run_one(&mut shards, Operation::Increment { key: kv(1) }), Some(1));
    assert_eq!(shards.get(1), Some(0));
}

#[test]
fn insert_reports_previous_value() {
    let mut shards = Shards::new(3, 4);
    assert_eq!(run_one(&mut shards, Operation::Insert { key: kv(4), value: kv(1) }), Some(1));
    assert_eq!(run_one(&mut shards, Operation::Insert { key: kv(4), value: kv(2) }), Some(1));
    assert_eq!(run_one(&mut shards, Operation::Read { key: kv(4) }), Some(2));
}

#[test]
fn remove_then_read_fails() {
    let mut shards = Shards::new(3, 4);
    assert_eq!(run_one(&mut shards, Operation::Remove { key: kv(9) }), None);
    assert_eq!(run_one(&mut shards, Operation::Read { key: kv(9) }), None);
    run_one(&mut shards, Operation::Insert { key: kv(9), value: kv(5) });
    assert_eq!(run_one(&mut shards, Operation::Remove { key: kv(9) }), Some(5));
    assert_eq!(run_one(&mut shards, Operation::Read { key: kv(9) }), None);
}

#[test]
fn batch_keeps_order_on_one_key() {
    let mut shards = Shards::new(4, 4);
    let ops = vec![
        Operation::Insert { key: kv(3), value: kv(30) },
        Operation::Read { key: kv(3) },
        Operation::Increment { key: kv(3) },
        Operation::Read { key: kv(3) },
        Operation::Remove { key: kv(3) },
        Operation::Read { key: kv(3) },
    ];
    let out = process_batch(&mut shards, &ops);
    assert!(!out.closed);
    let got: Vec<Option<u64>> = out.results.iter().map(value_of).collect();
    assert_eq!(got, vec![Some(30), Some(30), Some(32), Some(31), Some(31), None]);
}

#[test]
fn batch_across_shards_collects_every_result() {
    let mut shards = Shards::new(3, 4);
    let ops: Vec<Operation> = (0..9u64).map(|k| Operation::Insert { key: kv(k), value: kv(k * 10) }).collect();
    let out = process_batch(&mut shards, &ops);
    assert_eq!(out.results.len(), 9);
    let reads: Vec<Operation> = (0..9u64).map(|k| Operation::Read { key: kv(k) }).collect();
    let out = process_batch(&mut shards, &reads);
    let got: Vec<Option<u64>> = out.results.iter().map(value_of).collect();
    assert_eq!(got, (0..9u64).map(|k| Some(k * 10)).collect::<Vec<_>>());
}

#[test]
fn close_ends_the_batch() {
    let mut shards = Shards::new(2, 4);
    let ops = vec![
        Operation::Insert { key: kv(1), value: kv(1) },
        Operation::Close,
        Operation::Insert { key: kv(2), value: kv(2) },
    ];
    let out = process_batch(&mut shards, &ops);
    assert!(out.closed);
    assert_eq!(out.results.len(), 1);
    assert_eq!(shards.get(1), Some(1));
    assert_eq!(shards.get(2), None);
}

#[test]
fn empty_batch_gives_no_results() {
    let mut shards = Shards::new(2, 4);
    let out = process_batch(&mut shards, &Vec::new());
    assert!(!out.closed);
    assert!(out.results.is_empty());
}

#[test]
fn route_batch_sends_each_op_home() {
    let ops = vec![
        Operation::Read { key: kv(4) },
        Operation::Insert { key: kv(5), value: kv(1) },
        Operation::Increment { key: kv(6) },
        Operation::Close,
        Operation::Remove { key: kv(7) },
    ];
    let routed = route_batch(&ops, 3);
    assert!(routed.closed);
    let shards: Vec<usize> = routed.submissions.iter().map(|s| s.0).collect();
    assert_eq!(shards, vec![1, 2, 0]);
    assert_eq!(routed.submissions[1].1, ops[1]);
    let routed = route_batch(&ops[..3].to_vec(), 3);
    assert!(!routed.closed);
    assert_eq!(routed.submissions.len(), 3);
}

#[test]
fn table_applies_operations() {
    let mut t = Table::with_capacity(8);
    assert_eq!(t.get(3), None);
    assert_eq!(value_of(&t.apply(Operation::Insert { key: kv(3), value: kv(8) })), Some(8));
    assert_eq!(t.get(3), Some(8));
    assert_eq!(value_of(&t.apply(Operation::Remove { key: kv(3) })), Some(8));
    assert_eq!(t.get(3), None);
}

#[test]
fn owners_running_their_own_queues_match_the_batch() {
    let ops = vec![
        Operation::Insert { key: kv(1), value: kv(10) },
        Operation::Insert { key: kv(2), value: kv(20) },
        Operation::Increment { key: kv(1) },
        Operation::Read { key: kv(2) },
        Operation::Remove { key: kv(4) },
        Operation::Read { key: kv(1) },
        Operation::Insert { key: kv(4), value: kv(40) },
        Operation::Remove { key: kv(4) },
    ];
    let count = 3;
    let routed = route_batch(&ops, count);
    let mut owners: Vec<Table> = (0..count).map(|_| Table::with_capacity(4)).collect();
    let mut results: Vec<Option<Option<u64>>> = vec![None; routed.submissions.len()];
    for shard in (0..count).rev() {
        for (i, (home, op)) in routed.submissions.iter().enumerate() {
            if *home == shard {
                results[i] = Some(value_of(&owners[shard].apply(*op)));
            }
        }
    }
    let collected: Vec<Option<u64>> = results.into_iter().map(|r| r.unwrap()).collect();
    let mut shards = Shards::new(count, 4);
    let out = process_batch(&mut shards, &ops);
    let expected: Vec<Option<u64>> = out.results.iter().map(value_of).collect();
    assert_eq!(collected, expected);
    assert_eq!(expected, vec![Some(10), Some(20), Some(12), Some(20), None, Some(11), Some(40), Some(40)]);
}
