use vstd::prelude::*;
use crate::dispatch::{first_close, logical, run, served, process_batch, Shards};
use crate::ops::{result_value, KeyValueType, Operation, OperationResult};

verus! {

/// The length of one record of the binary encoding: an opcode and a big-endian key.
pub const RECORD_LEN: usize = 9;

/// Why a binary batch could not be read.
#[derive(Clone, Copy, Debug, PartialEq, Eq, Structural)]
pub enum DecodeError {
    /// Fewer bytes than the batch's records need.
    ShortPayload,
    /// A record before the first `Close` has an opcode outside `0..=4`.
    UnknownOpcode,
}

/// The big-endian integer held by the eight bytes of `b` from `at` on.
pub open spec fn be_key(b: Seq<u8>, at: int) -> u64 {
    (b[at] as int * 0x100000000000000 + b[at + 1] as int * 0x1000000000000
        + b[at + 2] as int * 0x10000000000 + b[at + 3] as int * 0x100000000
        + b[at + 4] as int * 0x1000000 + b[at + 5] as int * 0x10000
        + b[at + 6] as int * 0x100 + b[at + 7] as int) as u64
}

/// The operation of record `i`, or `None` for an unknown opcode.
///
/// Opcode 0 is `Close`, 1 `Read`, 2 `Insert`, 3 `Remove` and 4 `Increment`;
/// an insert stores the key as its own value.
pub open spec fn record_op(b: Seq<u8>, i: int) -> Option<Operation> {
    let at = i * 9;
    let key = KeyValueType::Int(be_key(b, at + 1));
    if b[at] == 0 {
        Some(Operation::Close)
    } else if b[at] == 1 {
        Some(Operation::Read { key })
    } else if b[at] == 2 {
        Some(Operation::Insert { key, value: key })
    } else if b[at] == 3 {
        Some(Operation::Remove { key })
    } else if b[at] == 4 {
        Some(Operation::Increment { key })
    } else {
        None
    }
}

/// The operations of records `i..n`, up to and including the first `Close`,
/// or `None` if one of them has an unknown opcode.
pub open spec fn decode_from(b: Seq<u8>, i: int, n: int) -> Option<Seq<Operation>>
    decreases n - i,
{
    if i >= n {
        Some(Seq::empty())
    } else {
        match record_op(b, i) {
            None => None,
            Some(Operation::Close) => Some(seq![Operation::Close]),
            Some(op) => match decode_from(b, i + 1, n) {
                None => None,
                Some(rest) => Some(seq![op] + rest),
            },
        }
    }
}

/// `rest` with `done` in front of it, if there is a `rest`.
pub open spec fn after(done: Seq<Operation>, rest: Option<Seq<Operation>>) -> Option<Seq<Operation>> {
    match rest {
        Some(r) => Some(done + r),
        None => None,
    }
}

/// The reply byte of a result: 0 for success, 1 for failure.
pub open spec fn reply_byte(v: Option<u64>) -> u8 {
    if v is Some {
        0
    } else {
        1
    }
}

fn read_key(b: &Vec<u8>, at: usize) -> (r: u64)
    requires
        at + 8 <= b@.len(),
    ensures
        r == be_key(b@, at as int),
{
    let len = b.len();
    let mut key: u64 = 0;
    let mut j: usize = 0;
    while j < 8
        invariant
            j <= 8,
            len == b@.len(),
            at + 8 <= len,
            key as int == partial_be(b@, at as int, j as int),
            partial_be(b@, at as int, j as int) < pow256(j as int),
        decreases 8 - j,
    {
        proof {
            lemma_partial_be_step(b@, at as int, j as int);
            assert(key as int * 256 + (b@[at + j] as int) < 0x1_0000_0000_0000_0000);
        }
        key = key * 256 + b[at + j] as u64;
        j = j + 1;
    }
    proof {
        reveal_with_fuel(partial_be, 9);
        reveal_with_fuel(pow256, 9);
    }
    key
}

/// The big-endian value of the first `j` bytes from `at` on.
pub open spec fn partial_be(b: Seq<u8>, at: int, j: int) -> int
    decreases j,
{
    if j <= 0 {
        0
    } else {
        partial_be(b, at, j - 1) * 256 + b[at + j - 1] as int
    }
}

pub open spec fn pow256(j: int) -> int
    decreases j,
{
    if j <= 0 {
        1
    } else {
        pow256(j - 1) * 256
    }
}

proof fn lemma_partial_be_step(b: Seq<u8>, at: int, j: int)
    requires
        0 <= j < 8,
        0 <= at,
        at + 8 <= b.len(),
        partial_be(b, at, j) < pow256(j),
    ensures
        partial_be(b, at, j + 1) == partial_be(b, at, j) * 256 + b[at + j] as int,
        partial_be(b, at, j + 1) < pow256(j + 1),
        pow256(j + 1) <= 0x1_0000_0000_0000_0000,
{
    reveal_with_fuel(pow256, 9);
    let p = partial_be(b, at, j);
    let q = pow256(j);
    assert(p * 256 + (b[at + j] as int) < q * 256) by (nonlinear_arith)
        requires p < q, b[at + j] < 256;
    assert(pow256(j + 1) <= 0x1_0000_0000_0000_0000) by {
        assert(0 <= j < 8);
        if j == 0 {} else if j == 1 {} else if j == 2 {} else if j == 3 {}
        else if j == 4 {} else if j == 5 {} else if j == 6 {} else {}
    }
}

/// Reads the `ops_per_req` records of one binary batch from `bytes`.
///
/// Records after the first `Close` are not looked at, and bytes after the
/// batch are left for the next one.
pub fn decode_binary_batch(bytes: &Vec<u8>, ops_per_req: usize) -> (r: Result<Vec<Operation>, DecodeError>)
    ensures
        (r matches Err(e) && e == DecodeError::ShortPayload) <==> bytes@.len() < RECORD_LEN * ops_per_req,
        (r matches Err(e) && e == DecodeError::UnknownOpcode) <==> (bytes@.len() >= RECORD_LEN * ops_per_req
            && decode_from(bytes@, 0, ops_per_req as int) is None),
        r matches Ok(v) ==> decode_from(bytes@, 0, ops_per_req as int) == Some(v@),
{
    if ops_per_req > bytes.len() / RECORD_LEN {
        assert(bytes@.len() < RECORD_LEN * ops_per_req) by (nonlinear_arith)
            requires ops_per_req > bytes@.len() / 9;
        return Err(DecodeError::ShortPayload);
    }
    assert(RECORD_LEN * ops_per_req <= bytes@.len()) by (nonlinear_arith)
        requires ops_per_req <= bytes@.len() / 9;
    let ghost n = ops_per_req as int;
    let mut acc: Vec<Operation> = Vec::new();
    let mut i: usize = 0;
    while i < ops_per_req
        invariant
            i <= ops_per_req,
            9 * ops_per_req <= bytes@.len(),
            bytes@.len() <= usize::MAX,
            n == ops_per_req,
            decode_from(bytes@, 0, n) == after(acc@, decode_from(bytes@, i as int, n)),
        decreases ops_per_req - i,
    {
        assert(i * 9 + 9 <= bytes@.len()) by (nonlinear_arith)
            requires i < ops_per_req, 9 * ops_per_req <= bytes@.len();
        let at = i * RECORD_LEN;
        let opcode = bytes[at];
        let key = KeyValueType::Int(read_key(bytes, at + 1));
        let op = if opcode == 0 {
            Operation::Close
        } else if opcode == 1 {
            Operation::Read { key }
        } else if opcode == 2 {
            Operation::Insert { key, value: key }
        } else if opcode == 3 {
            Operation::Remove { key }
        } else if opcode == 4 {
            Operation::Increment { key }
        } else {
            return Err(DecodeError::UnknownOpcode);
        };
        acc.push(op);
        if opcode == 0 {
            assert(acc@ =~= acc@.drop_last() + seq![Operation::Close]);
            return Ok(acc);
        }
        proof {
            match decode_from(bytes@, i + 1, n) {
                Some(rest) => {
                    assert(acc@.drop_last() + (seq![op] + rest) =~= acc@ + rest);
                },
                None => {},
            }
        }
        i = i + 1;
    }
    assert(acc@ + Seq::<Operation>::empty() =~= acc@);
    Ok(acc)
}

/// One reply byte per result, in order: 0 for success, 1 for failure.
pub fn encode_binary_reply(results: &Vec<OperationResult>) -> (r: Vec<u8>)
    ensures
        r@.len() == results@.len(),
        forall|i: int| 0 <= i < r@.len() ==> #[trigger] r@[i] == reply_byte(result_value(results@[i])),
{
    let mut out: Vec<u8> = Vec::new();
    let mut i: usize = 0;
    while i < results.len()
        invariant
            i <= results@.len(),
            out@.len() == i,
            forall|j: int| 0 <= j < i ==> #[trigger] out@[j] == reply_byte(result_value(results@[j])),
        decreases results@.len() - i,
    {
        let b: u8 = if results[i].is_success() { 0 } else { 1 };
        out.push(b);
        i = i + 1;
    }
    out
}

/// What a binary batch leads to: a reply to send, or the end of the connection.
pub enum BinaryOutcome {
    /// One byte per record, in request order.
    Reply(Vec<u8>),
    /// A `Close` record ended the connection; the records before it were run
    /// and nothing is sent back.
    Closed,
}

/// The operations that a well-formed binary batch decodes to.
pub open spec fn batch_ops(b: Seq<u8>, n: int) -> Seq<Operation> {
    match decode_from(b, 0, n) {
        Some(s) => s,
        None => Seq::empty(),
    }
}

/// A decoded batch ends at its first `Close`, or holds all the records from `i` on.
proof fn lemma_decoded_shape(b: Seq<u8>, i: int, n: int)
    requires
        0 <= i <= n,
        decode_from(b, i, n) is Some,
    ensures
        ({
            let s = decode_from(b, i, n)->Some_0;
            ||| (s.len() == n - i && first_close(s) == s.len())
            ||| (s.len() >= 1 && first_close(s) == s.len() - 1)
        }),
    decreases n - i,
{
    if i < n {
        let s = decode_from(b, i, n)->Some_0;
        match record_op(b, i) {
            None => {},
            Some(Operation::Close) => {},
            Some(op) => {
                lemma_decoded_shape(b, i + 1, n);
                let rest = decode_from(b, i + 1, n)->Some_0;
                assert(s.drop_first() =~= rest);
            },
        }
    }
}

/// Decodes one binary batch and runs it on the shards.
///
/// Without a `Close`, the reply holds exactly one byte per record. A `Close`
/// ends the connection: the records before it are run, and no reply is sent.
/// A batch that does not decode leaves the shards as they were.
pub fn process_binary_batch(shards: &mut Shards, bytes: &Vec<u8>, ops_per_req: usize) -> (r: Result<BinaryOutcome, DecodeError>)
    requires
        old(shards).wf(),
    ensures
        final(shards).wf(),
        final(shards)@.len() == old(shards)@.len(),
        (r matches Err(e) && e == DecodeError::ShortPayload) <==> bytes@.len() < RECORD_LEN * ops_per_req,
        (r matches Err(e) && e == DecodeError::UnknownOpcode) <==> (bytes@.len() >= RECORD_LEN * ops_per_req
            && decode_from(bytes@, 0, ops_per_req as int) is None),
        r is Err ==> final(shards)@ == old(shards)@,
        r is Ok ==> logical(final(shards)@) == run(logical(old(shards)@), served(batch_ops(bytes@, ops_per_req as int))).0,
        r matches Ok(out) ==> (out is Closed <==> first_close(batch_ops(bytes@, ops_per_req as int))
            < batch_ops(bytes@, ops_per_req as int).len()),
        r matches Ok(out) ==> (out matches BinaryOutcome::Reply(reply) ==> {
            &&& reply@.len() == ops_per_req
            &&& forall|i: int| 0 <= i < ops_per_req ==> #[trigger] reply@[i] == reply_byte(
                run(logical(old(shards)@), served(batch_ops(bytes@, ops_per_req as int))).1[i])
        }),
{
    let ops = match decode_binary_batch(bytes, ops_per_req) {
        Ok(ops) => ops,
        Err(e) => return Err(e),
    };
    proof {
        lemma_decoded_shape(bytes@, 0, ops_per_req as int);
    }
    let outcome = process_batch(shards, &ops);
    if outcome.closed {
        Ok(BinaryOutcome::Closed)
    } else {
        Ok(BinaryOutcome::Reply(encode_binary_reply(&outcome.results)))
    }
}

} // verus!
