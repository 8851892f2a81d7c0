use vstd::prelude::*;
use crate::dispatch::{run, home, sharded_wf, logical, lemma_apply_at_home};
use crate::ops::{kv_int, op_effect, op_key, op_outcome, KeyValueType, Operation};

verus! {

/// Two operations issued one after the other on a connection: the second
/// sees the effect of the first.
pub proof fn law_same_connection_order(m: Map<u64, u64>, a: Operation, b: Operation)
    ensures
        run(m, seq![a, b]).1.len() == 2,
        run(m, seq![a, b]).1[0] == op_outcome(m, a),
        run(m, seq![a, b]).1[1] == op_outcome(op_effect(m, a), b),
        run(m, seq![a, b]).0 == op_effect(op_effect(m, a), b),
{
    let one = seq![a];
    let two = seq![a, b];
    assert(two.drop_last() =~= one);
    assert(one.drop_last() =~= Seq::<Operation>::empty());
    assert(run(m, Seq::<Operation>::empty()).1.len() == 0);
    assert(run(m, one).1 == seq![op_outcome(m, a)]);
}

/// A read right after an insert of the same key, on one connection, sees
/// the inserted value, whatever the store held before.
pub proof fn law_read_after_write(m: Map<u64, u64>, key: KeyValueType, value: KeyValueType)
    ensures
        run(m, seq![Operation::Insert { key, value }, Operation::Read { key }]).1[1] == Some(kv_int(value)),
{
    law_same_connection_order(m, Operation::Insert { key, value }, Operation::Read { key });
}

/// A read right after a removal of the same key, on one connection, finds
/// the key absent, whatever the store held before.
pub proof fn law_remove_then_read(m: Map<u64, u64>, key: KeyValueType)
    ensures
        run(m, seq![Operation::Remove { key }, Operation::Read { key }]).1[1] is None,
{
    law_same_connection_order(m, Operation::Remove { key }, Operation::Read { key });
}

/// Every operation on a key is served by the key's home shard alone: it
/// changes no other shard, and what it reports and does depends only on that
/// shard, as if the whole store were one map.
pub proof fn law_routing_consistent(ss: Seq<Map<u64, u64>>, op: Operation)
    requires
        sharded_wf(ss),
        !(op is Close),
    ensures
        ({
            let h = home(op_key(op), ss.len() as int);
            let ss2 = ss.update(h, op_effect(ss[h], op));
            &&& 0 <= h < ss.len()
            &&& forall|i: int| 0 <= i < ss.len() && i != h ==> #[trigger] ss2[i] == ss[i]
            &&& sharded_wf(ss2)
            &&& logical(ss2) == op_effect(logical(ss), op)
        }),
{
    lemma_apply_at_home(ss, op);
}

/// The operations of `ops` that shard `h` of `n` owns, in request order:
/// the queue that shard's owner receives from one connection.
pub open spec fn owned_by(ops: Seq<Operation>, h: int, n: int) -> Seq<Operation>
    decreases ops.len(),
{
    if ops.len() == 0 {
        Seq::empty()
    } else {
        let rest = owned_by(ops.drop_last(), h, n);
        if home(op_key(ops.last()), n) == h {
            rest.push(ops.last())
        } else {
            rest
        }
    }
}

/// The shards after each operation of `ops` has run on its home shard, in order.
pub open spec fn run_sharded(ss: Seq<Map<u64, u64>>, ops: Seq<Operation>) -> Seq<Map<u64, u64>>
    decreases ops.len(),
{
    if ops.len() == 0 {
        ss
    } else {
        let prev = run_sharded(ss, ops.drop_last());
        let h = home(op_key(ops.last()), ss.len() as int);
        prev.update(h, op_effect(prev[h], ops.last()))
    }
}

proof fn lemma_run_sharded(ss: Seq<Map<u64, u64>>, ops: Seq<Operation>)
    requires
        sharded_wf(ss),
        forall|j: int| 0 <= j < ops.len() ==> !(#[trigger] ops[j] is Close),
    ensures
        run_sharded(ss, ops).len() == ss.len(),
        sharded_wf(run_sharded(ss, ops)),
        logical(run_sharded(ss, ops)) == run(logical(ss), ops).0,
        forall|h: int| 0 <= h < ss.len() ==> #[trigger] run_sharded(ss, ops)[h] == run(
            ss[h],
            owned_by(ops, h, ss.len() as int),
        ).0,
    decreases ops.len(),
{
    if ops.len() > 0 {
        let init = ops.drop_last();
        assert forall|j: int| 0 <= j < init.len() implies !(#[trigger] init[j] is Close) by {
            assert(init[j] == ops[j]);
        }
        lemma_run_sharded(ss, init);
        let prev = run_sharded(ss, init);
        let op = ops.last();
        assert(!(op is Close)) by {
            assert(op == ops[ops.len() - 1]);
        }
        lemma_apply_at_home(prev, op);
        let n = ss.len() as int;
        let k = home(op_key(op), n);
        assert forall|h: int| 0 <= h < ss.len() implies #[trigger] run_sharded(ss, ops)[h] == run(
            ss[h],
            owned_by(ops, h, n),
        ).0 by {
            if h == k {
                let q = owned_by(ops, h, n);
                assert(q.drop_last() == owned_by(init, h, n));
            }
        }
    }
}

proof fn lemma_run_prefix(m: Map<u64, u64>, ops: Seq<Operation>, j: int)
    requires
        0 <= j <= ops.len(),
    ensures
        run(m, ops).1.len() == ops.len(),
        run(m, ops.take(j)).1 == run(m, ops).1.take(j),
    decreases ops.len(),
{
    if ops.len() > 0 {
        lemma_run_prefix(m, ops.drop_last(), if j == ops.len() { 0 } else { j });
        if j == ops.len() {
            assert(ops.take(j) =~= ops);
            assert(run(m, ops).1.take(j) =~= run(m, ops).1);
        } else {
            assert(ops.take(j) =~= ops.drop_last().take(j));
            assert(run(m, ops).1.take(j) =~= run(m, ops.drop_last()).1.take(j));
        }
    } else {
        assert(ops.take(j) =~= ops);
        assert(run(m, ops).1.take(j) =~= run(m, ops).1);
    }
}

/// Each shard owner can run its own queue alone: the result of every
/// operation of a batch, as the whole store would report it in request
/// order, is the last result of its home owner running, in order, the
/// operations of the batch up to it that it owns. Results can thus be
/// collected from the owners in any order, and operations on one key keep
/// their order.
pub proof fn law_owner_queues(ss: Seq<Map<u64, u64>>, ops: Seq<Operation>, i: int)
    requires
        sharded_wf(ss),
        forall|j: int| 0 <= j < ops.len() ==> !(#[trigger] ops[j] is Close),
        0 <= i < ops.len(),
    ensures
        ({
            let h = home(op_key(ops[i]), ss.len() as int);
            run(logical(ss), ops).1[i] == run(ss[h], owned_by(ops.take(i + 1), h, ss.len() as int)).1.last()
        }),
{
    let n = ss.len() as int;
    let op = ops[i];
    let h = home(op_key(op), n);
    let before = ops.take(i);
    let upto = ops.take(i + 1);
    assert forall|j: int| 0 <= j < before.len() implies !(#[trigger] before[j] is Close) by {
        assert(before[j] == ops[j]);
    }
    lemma_run_sharded(ss, before);
    lemma_apply_at_home(run_sharded(ss, before), op);
    lemma_run_prefix(logical(ss), ops, i + 1);
    assert(upto.drop_last() =~= before);
    assert(upto.last() == op);
    assert(owned_by(upto, h, n) == owned_by(before, h, n).push(op));
    let q = owned_by(upto, h, n);
    assert(q.drop_last() =~= owned_by(before, h, n));
    let l = logical(ss);
    let rs = run_sharded(ss, before);
    lemma_run_prefix(l, before, 0);
    assert(run(l, upto).1 == run(l, before).1.push(op_outcome(run(l, before).0, op)));
    assert(run(l, ops).1[i] == run(l, upto).1[i]);
    assert(run(l, upto).1[i] == op_outcome(run(l, before).0, op));
    assert(op_outcome(rs[h], op) == op_outcome(logical(rs), op));
    assert(rs[h] == run(ss[h], owned_by(before, h, n)).0);
    assert(run(ss[h], q).1.last() == op_outcome(run(ss[h], q.drop_last()).0, q.last()));
}

} // verus!
