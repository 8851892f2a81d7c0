use vstd::prelude::*;
use crate::ops::{op_effect, op_key, op_outcome, result_value, result_wf, empty_map, Operation, OperationResult};
use crate::routing::shard_index;
use crate::table::{Table, MAX_SHARD_CAPACITY};

verus! {

/// The shard that owns `k` among `n` shards.
pub open spec fn home(k: u64, n: int) -> int {
    (k as int) % n
}

/// Every shard holds only the keys routed to it.
pub open spec fn sharded_wf(ss: Seq<Map<u64, u64>>) -> bool {
    &&& ss.len() > 0
    &&& forall|i: int, k: u64|
        0 <= i < ss.len() && #[trigger] ss[i].contains_key(k) ==> home(k, ss.len() as int) == i
}

/// The one map that a sharded state stands for: each key looked up in its home shard.
pub open spec fn logical(ss: Seq<Map<u64, u64>>) -> Map<u64, u64> {
    Map::new(
        |k: u64| ss[home(k, ss.len() as int)].contains_key(k),
        |k: u64| ss[home(k, ss.len() as int)][k],
    )
}

/// Runs `ops` in order on `m`: the final map and what each operation reported.
pub open spec fn run(m: Map<u64, u64>, ops: Seq<Operation>) -> (Map<u64, u64>, Seq<Option<u64>>)
    decreases ops.len(),
{
    if ops.len() == 0 {
        (m, Seq::empty())
    } else {
        let prev = run(m, ops.drop_last());
        (op_effect(prev.0, ops.last()), prev.1.push(op_outcome(prev.0, ops.last())))
    }
}

/// The position of the first `Close` in `ops`, or its length if there is none.
pub open spec fn first_close(ops: Seq<Operation>) -> int
    decreases ops.len(),
{
    if ops.len() == 0 {
        0
    } else if ops[0] is Close {
        0
    } else {
        1 + first_close(ops.drop_first())
    }
}

/// The operations of a batch that are carried out: those before the first `Close`.
pub open spec fn served(ops: Seq<Operation>) -> Seq<Operation> {
    ops.take(first_close(ops))
}

pub proof fn lemma_first_close(ops: Seq<Operation>, i: int)
    requires
        0 <= i <= ops.len(),
        forall|j: int| 0 <= j < i ==> !(#[trigger] ops[j] is Close),
        i == ops.len() || ops[i] is Close,
    ensures
        first_close(ops) == i,
    decreases i,
{
    if i > 0 {
        let rest = ops.drop_first();
        assert forall|j: int| 0 <= j < i - 1 implies !(#[trigger] rest[j] is Close) by {
            assert(rest[j] == ops[j + 1]);
        }
        if i - 1 < rest.len() {
            assert(rest[i - 1] == ops[i]);
        }
        lemma_first_close(rest, i - 1);
    }
}

/// Running one operation on the home shard of its key acts on the logical map
/// as running it on the logical map itself, and keeps every key in its home.
pub proof fn lemma_apply_at_home(ss: Seq<Map<u64, u64>>, op: Operation)
    requires
        sharded_wf(ss),
        !(op is Close),
    ensures
        ({
            let h = home(op_key(op), ss.len() as int);
            let ss2 = ss.update(h, op_effect(ss[h], op));
            &&& sharded_wf(ss2)
            &&& logical(ss2) == op_effect(logical(ss), op)
            &&& op_outcome(ss[h], op) == op_outcome(logical(ss), op)
        }),
{
    let n = ss.len() as int;
    let k = op_key(op);
    let h = home(k, n);
    let ss2 = ss.update(h, op_effect(ss[h], op));
    assert forall|i: int, k2: u64| 0 <= i < ss2.len() && #[trigger] ss2[i].contains_key(k2) implies home(k2, n) == i by {
        if i == h {
            if k2 != k {
                assert(ss[h].contains_key(k2));
            }
        } else {
            assert(ss[i].contains_key(k2));
        }
    }
    let l = logical(ss);
    assert(l.contains_key(k) == ss[h].contains_key(k));
    if l.contains_key(k) {
        assert(l[k] == ss[h][k]);
    }
    assert(logical(ss2) =~= op_effect(l, op)) by {
        assert forall|k2: u64| #[trigger] logical(ss2).contains_key(k2) == op_effect(l, op).contains_key(k2) by {
            if home(k2, n) != h {
                assert(ss2[home(k2, n)] == ss[home(k2, n)]);
            }
        }
        assert forall|k2: u64| #[trigger] logical(ss2).contains_key(k2) implies logical(ss2)[k2] == op_effect(l, op)[k2] by {
            if home(k2, n) != h {
                assert(ss2[home(k2, n)] == ss[home(k2, n)]);
            }
        }
    }
}

/// The shards of a store, each a map from keys to values.
pub struct Shards {
    tables: Vec<Table>,
}

impl View for Shards {
    type V = Seq<Map<u64, u64>>;

    closed spec fn view(&self) -> Seq<Map<u64, u64>> {
        self.tables@.map_values(|t: Table| t@)
    }
}

impl Shards {
    pub open spec fn wf(&self) -> bool {
        sharded_wf(self@)
    }

    /// `count` empty shards, each sized for `capacity` entries.
    pub fn new(count: usize, capacity: usize) -> (r: Shards)
        requires
            count > 0,
            capacity <= MAX_SHARD_CAPACITY,
        ensures
            r.wf(),
            r@.len() == count,
            logical(r@) == empty_map(),
    {
        let mut tables: Vec<Table> = Vec::new();
        let mut i: usize = 0;
        while i < count
            invariant
                i <= count,
                capacity <= MAX_SHARD_CAPACITY,
                tables@.len() == i,
                forall|j: int| 0 <= j < i ==> (#[trigger] tables@[j])@ == empty_map(),
            decreases count - i,
        {
            tables.push(Table::with_capacity(capacity));
            i = i + 1;
        }
        let r = Shards { tables };
        assert(logical(r@) =~= empty_map());
        r
    }

    /// The number of shards.
    pub fn len(&self) -> (r: usize)
        ensures
            r == self@.len(),
    {
        self.tables.len()
    }

    /// The value stored under `key`, if any.
    pub fn get(&self, key: u64) -> (r: Option<u64>)
        requires
            self.wf(),
        ensures
            r == (if logical(self@).contains_key(key) { Some(logical(self@)[key]) } else { None::<u64> }),
    {
        let h = shard_index(key, self.tables.len());
        self.tables[h].get(key)
    }

    /// Runs one operation on the shard that owns its key.
    pub fn apply(&mut self, op: Operation) -> (r: OperationResult)
        requires
            old(self).wf(),
            !(op is Close),
        ensures
            final(self).wf(),
            final(self)@.len() == old(self)@.len(),
            logical(final(self)@) == op_effect(logical(old(self)@), op),
            result_value(r) == op_outcome(logical(old(self)@), op),
            result_wf(r),
    {
        let key = match op {
            Operation::Read { key } => key.as_u64(),
            Operation::Insert { key, .. } => key.as_u64(),
            Operation::Remove { key } => key.as_u64(),
            Operation::Increment { key } => key.as_u64(),
            Operation::Close => 0,
        };
        let h = shard_index(key, self.tables.len());
        proof {
            lemma_apply_at_home(self@, op);
        }
        let ghost before = self@;
        let r = self.tables[h].apply(op);
        assert(self@ =~= before.update(h as int, op_effect(before[h as int], op)));
        r
    }
}

/// What a batch gave: the results of the operations before the first `Close`,
/// in request order, and whether a `Close` ended the connection.
pub struct BatchOutcome {
    pub results: Vec<OperationResult>,
    pub closed: bool,
}

/// Runs one batch on the shards: each operation, in order, on the shard that
/// owns its key, until a `Close`.
pub fn process_batch(shards: &mut Shards, ops: &Vec<Operation>) -> (r: BatchOutcome)
    requires
        old(shards).wf(),
    ensures
        final(shards).wf(),
        final(shards)@.len() == old(shards)@.len(),
        r.closed == (first_close(ops@) < ops@.len()),
        r.results@.len() == first_close(ops@),
        logical(final(shards)@) == run(logical(old(shards)@), served(ops@)).0,
        forall|i: int| 0 <= i < r.results@.len() ==> {
            &&& result_value(#[trigger] r.results@[i]) == run(logical(old(shards)@), served(ops@)).1[i]
            &&& result_wf(r.results@[i])
        },
{
    let ghost start = logical(shards@);
    let mut results: Vec<OperationResult> = Vec::new();
    let mut i: usize = 0;
    while i < ops.len()
        invariant
            i <= ops@.len(),
            shards.wf(),
            shards@.len() == old(shards)@.len(),
            start == logical(old(shards)@),
            forall|j: int| 0 <= j < i ==> !(#[trigger] ops@[j] is Close),
            results@.len() == i,
            logical(shards@) == run(start, ops@.take(i as int)).0,
            run(start, ops@.take(i as int)).1.len() == i,
            forall|j: int| 0 <= j < i ==> {
                &&& result_value(#[trigger] results@[j]) == run(start, ops@.take(i as int)).1[j]
                &&& result_wf(results@[j])
            },
        decreases ops@.len() - i,
    {
        let op = ops[i];
        if let Operation::Close = op {
            proof {
                lemma_first_close(ops@, i as int);
            }
            return BatchOutcome { results, closed: true };
        }
        let ghost prev = run(start, ops@.take(i as int));
        let r = shards.apply(op);
        results.push(r);
        proof {
            assert(ops@.take(i + 1).drop_last() =~= ops@.take(i as int));
        }
        i = i + 1;
    }
    proof {
        lemma_first_close(ops@, i as int);
        assert(ops@.take(i as int) =~= ops@);
    }
    BatchOutcome { results, closed: false }
}

/// A batch split by owner: for each operation before the first `Close`, in
/// request order, the shard that must run it.
pub struct RoutedBatch {
    pub submissions: Vec<(usize, Operation)>,
    pub closed: bool,
}

/// Routes a batch for `shard_count` shard owners.
///
/// Each owner that runs the operations it is sent in the order they come, and
/// hands the results back in that order, reproduces `process_batch`.
pub fn route_batch(ops: &Vec<Operation>, shard_count: usize) -> (r: RoutedBatch)
    requires
        shard_count > 0,
    ensures
        r.closed == (first_close(ops@) < ops@.len()),
        r.submissions@.len() == first_close(ops@),
        forall|i: int| 0 <= i < r.submissions@.len() ==> {
            &&& (#[trigger] r.submissions@[i]).1 == ops@[i]
            &&& !(ops@[i] is Close)
            &&& r.submissions@[i].0 == home(op_key(ops@[i]), shard_count as int)
        },
{
    let mut submissions: Vec<(usize, Operation)> = Vec::new();
    let mut i: usize = 0;
    while i < ops.len()
        invariant
            i <= ops@.len(),
            shard_count > 0,
            forall|j: int| 0 <= j < i ==> !(#[trigger] ops@[j] is Close),
            submissions@.len() == i,
            forall|j: int| 0 <= j < i ==> {
                &&& (#[trigger] submissions@[j]).1 == ops@[j]
                &&& submissions@[j].0 == home(op_key(ops@[j]), shard_count as int)
            },
        decreases ops@.len() - i,
    {
        let op = ops[i];
        let key = match op {
            Operation::Read { key } => key.as_u64(),
            Operation::Insert { key, .. } => key.as_u64(),
            Operation::Remove { key } => key.as_u64(),
            Operation::Increment { key } => key.as_u64(),
            Operation::Close => {
                proof {
                    lemma_first_close(ops@, i as int);
                }
                return RoutedBatch { submissions, closed: true };
            },
        };
        submissions.push((shard_index(key, shard_count), op));
        i = i + 1;
    }
    proof {
        lemma_first_close(ops@, i as int);
    }
    RoutedBatch { submissions, closed: false }
}

} // verus!
