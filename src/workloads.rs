use vstd::prelude::*;

verus! {

/// The named workloads a benchmark client can run.
#[derive(Clone, Copy, Debug, PartialEq, Eq, Structural)]
pub enum WorkloadKind {
    ReadHeavy,
    Exchange,
    RapidGrow,
}

fn str_eq(a: &str, b: &str) -> (r: bool)
    ensures
        r == (a@ == b@),
{
    a.to_owned() == b.to_owned()
}

impl WorkloadKind {
    /// The workload named `s`, spelled as its variant.
    pub fn from_str(s: &str) -> (r: Result<WorkloadKind, &'static str>)
        ensures
            s@ == "ReadHeavy"@ ==> r == Ok::<WorkloadKind, &'static str>(WorkloadKind::ReadHeavy),
            s@ == "Exchange"@ ==> r == Ok::<WorkloadKind, &'static str>(WorkloadKind::Exchange),
            s@ == "RapidGrow"@ ==> r == Ok::<WorkloadKind, &'static str>(WorkloadKind::RapidGrow),
            (s@ != "ReadHeavy"@ && s@ != "Exchange"@ && s@ != "RapidGrow"@) ==> (r matches Err(e)
                && e@ == "unknown workload"@),
    {
        proof {
            reveal_strlit("ReadHeavy");
            reveal_strlit("Exchange");
            reveal_strlit("RapidGrow");
            assert("ReadHeavy"@.len() != "Exchange"@.len());
            assert("RapidGrow"@.len() != "Exchange"@.len());
            assert("ReadHeavy"@[1] != "RapidGrow"@[1]);
        }
        if str_eq(s, "ReadHeavy") {
            Ok(WorkloadKind::ReadHeavy)
        } else if str_eq(s, "Exchange") {
            Ok(WorkloadKind::Exchange)
        } else if str_eq(s, "RapidGrow") {
            Ok(WorkloadKind::RapidGrow)
        } else {
            Err("unknown workload")
        }
    }
}

impl std::str::FromStr for WorkloadKind {
    type Err = &'static str;

    fn from_str(s: &str) -> Result<WorkloadKind, &'static str> {
        WorkloadKind::from_str(s)
    }
}

/// The share of each kind of operation in a workload, in percent.
#[derive(Clone, Copy, Debug, PartialEq, Eq, Structural)]
pub struct Mix {
    /// The percentage of operations in the mix that are reads.
    pub read: u8,
    /// The percentage of operations in the mix that are inserts.
    pub insert: u8,
    /// The percentage of operations in the mix that are removals.
    pub remove: u8,
    /// The percentage of operations in the mix that are updates.
    pub update: u8,
    /// The percentage of operations in the mix that are update-or-inserts.
    pub upsert: u8,
}

impl Mix {
    /// The shares add up to a hundred percent.
    pub open spec fn wf(&self) -> bool {
        self.read + self.insert + self.remove + self.update + self.upsert == 100
    }
}

/// One million: fractions are counted in parts per million.
pub const PPM: u32 = 1000000;

/// A benchmark workload: a mix of operations over a table of a given size.
#[derive(Clone, Copy, Debug)]
pub struct Workload {
    /// The mix of operations to run.
    pub mix: Mix,
    /// The initial capacity of the table, as a power of 2.
    pub initial_cap_log2: u8,
    /// The share of the initial capacity to populate before the run, in parts per million.
    pub prefill_ppm: u32,
    /// The number of operations as a multiple of the initial capacity, in parts per million.
    pub ops_ppm: u64,
    /// The number of operations to run at a stretch.
    pub ops_st: usize,
    /// The number of threads to run the benchmark with.
    pub threads: usize,
    /// The seed of the workload's randomness; `None` picks one at random.
    /// With a seed and one thread, the workload is deterministic.
    pub seed: Option<[u8; 32]>,
}

impl Workload {
    /// A workload of `mix` on `threads` threads, with the defaults: a table of
    /// 2^25 entries, no prefill, operations for 75% of the capacity, one at a
    /// stretch, and no seed.
    pub fn new(threads: usize, mix: Mix) -> (r: Workload)
        ensures
            r.mix == mix,
            r.initial_cap_log2 == 25,
            r.prefill_ppm == 0,
            r.ops_ppm == 750000,
            r.ops_st == 1,
            r.threads == threads,
            r.seed is None,
    {
        Workload { mix, initial_cap_log2: 25, prefill_ppm: 0, ops_ppm: 750000, ops_st: 1, threads, seed: None }
    }

    /// Sets the initial capacity of the table to 2^`capacity`.
    pub fn initial_capacity_log2(&mut self, capacity: u8) -> (r: &mut Self)
        ensures
            *r == (Workload { initial_cap_log2: capacity, ..*old(self) }),
            *final(self) == *final(r),
    {
        self.initial_cap_log2 = capacity;
        self
    }

    /// Sets the share of the capacity to populate before the run, in parts per million.
    pub fn prefill_fraction(&mut self, ppm: u32) -> (r: &mut Self)
        requires
            ppm <= PPM,
        ensures
            *r == (Workload { prefill_ppm: ppm, ..*old(self) }),
            *final(self) == *final(r),
    {
        self.prefill_ppm = ppm;
        self
    }

    /// Sets the number of operations to run at a stretch.
    pub fn operations_at_a_stretch(&mut self, ops_st: usize) -> (r: &mut Self)
        ensures
            *r == (Workload { ops_st, ..*old(self) }),
            *final(self) == *final(r),
    {
        self.ops_st = ops_st;
        self
    }

    /// Sets the number of operations as a multiple of the initial capacity,
    /// in parts per million; it may exceed one million.
    pub fn operations(&mut self, ppm: u64) -> (r: &mut Self)
        ensures
            *r == (Workload { ops_ppm: ppm, ..*old(self) }),
            *final(self) == *final(r),
    {
        self.ops_ppm = ppm;
        self
    }

    /// Sets the seed of the workload's randomness.
    pub fn seed(&mut self, seed: [u8; 32]) -> (r: &mut Self)
        ensures
            *r == (Workload { seed: Some(seed), ..*old(self) }),
            *final(self) == *final(r),
    {
        self.seed = Some(seed);
        self
    }

}

impl Workload {
    /// The run parameters that `new` sets and the named workloads keep:
    /// operations for 75% of the capacity, one at a stretch, `threads`
    /// threads and no seed.
    pub open spec fn keeps_defaults(&self, threads: usize) -> bool {
        &&& self.ops_ppm == 750000
        &&& self.ops_st == 1
        &&& self.threads == threads
        &&& self.seed is None
    }
}

/// The mix of a read-heavy workload: 98% reads, 1% inserts, 1% removals.
pub open spec fn read_heavy_mix() -> Mix {
    Mix { read: 98, insert: 1, remove: 1, update: 0, upsert: 0 }
}

/// The mix of a fast-growing table: mostly inserts.
pub open spec fn rapid_grow_mix() -> Mix {
    Mix { read: 5, insert: 80, remove: 5, update: 10, upsert: 0 }
}

/// The mix of a table whose entries come and go.
pub open spec fn exchange_mix() -> Mix {
    Mix { read: 10, insert: 40, remove: 40, update: 10, upsert: 0 }
}

fn read_heavy(threads: u32, capacity: u8) -> (r: Workload)
    ensures
        r.mix == read_heavy_mix(),
        r.initial_cap_log2 == capacity,
        r.prefill_ppm == 800000,
        r.keeps_defaults(threads as usize),
{
    let mix = Mix { read: 98, insert: 1, remove: 1, update: 0, upsert: 0 };
    let mut w = Workload::new(threads as usize, mix);
    w.initial_capacity_log2(capacity).prefill_fraction(800000);
    w
}

fn rapid_grow(threads: u32, capacity: u8) -> (r: Workload)
    ensures
        r.mix == rapid_grow_mix(),
        r.initial_cap_log2 == capacity,
        r.prefill_ppm == 0,
        r.keeps_defaults(threads as usize),
{
    let mix = Mix { read: 5, insert: 80, remove: 5, update: 10, upsert: 0 };
    let mut w = Workload::new(threads as usize, mix);
    w.initial_capacity_log2(capacity).prefill_fraction(0);
    w
}

fn exchange(threads: u32, capacity: u8) -> (r: Workload)
    ensures
        r.mix == exchange_mix(),
        r.initial_cap_log2 == capacity,
        r.prefill_ppm == 800000,
        r.keeps_defaults(threads as usize),
{
    let mix = Mix { read: 10, insert: 40, remove: 40, update: 10, upsert: 0 };
    let mut w = Workload::new(threads as usize, mix);
    w.initial_capacity_log2(capacity).prefill_fraction(800000);
    w
}

/// The workload of kind `kind` over a table of 2^`capacity` entries, run on
/// `threads` threads.
pub fn create(kind: WorkloadKind, capacity: u8, threads: u32) -> (r: Workload)
    ensures
        r.mix.wf(),
        r.initial_cap_log2 == capacity,
        r.keeps_defaults(threads as usize),
        kind == WorkloadKind::ReadHeavy ==> r.mix == read_heavy_mix() && r.prefill_ppm == 800000,
        kind == WorkloadKind::Exchange ==> r.mix == exchange_mix() && r.prefill_ppm == 800000,
        kind == WorkloadKind::RapidGrow ==> r.mix == rapid_grow_mix() && r.prefill_ppm == 0,
{
    match kind {
        WorkloadKind::ReadHeavy => read_heavy(threads, capacity),
        WorkloadKind::Exchange => exchange(threads, capacity),
        WorkloadKind::RapidGrow => rapid_grow(threads, capacity),
    }
}

} // verus!
