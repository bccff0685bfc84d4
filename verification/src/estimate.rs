use crate::packet::{RequestPacket, SerializedRequest};
use vstd::prelude::*;
use vstd::string::StringExecFns;

verus! {

/// Declared response-size ceiling, in bytes, for methods whose responses are
/// known to be small.
pub const MAX_RESPONSE_SIZE_SMALL: u64 = 1_000;

/// Ceiling for methods with a known medium-sized response shape.
pub const MAX_RESPONSE_SIZE_MEDIUM: u64 = 2_000;

/// Conservative ceiling for any method the table does not know.
pub const MAX_RESPONSE_SIZE_UNKNOWN: u64 = 5_000;

/// Largest batch length for which the summed estimate provably fits in `u64`:
/// every member contributes at most `MAX_RESPONSE_SIZE_UNKNOWN`.
pub const MAX_ESTIMATED_BATCH_LEN: u64 = 3_689_348_814_741_910;

/// Method names with a known small response shape.
pub open spec fn spec_is_small_method(m: Seq<char>) -> bool {
    ||| m == "eth_blockNumber"@
    ||| m == "eth_getBalance"@
    ||| m == "eth_chainId"@
    ||| m == "eth_estimateGas"@
    ||| m == "eth_gasPrice"@
    ||| m == "eth_getBlockTransactionCountByHash"@
    ||| m == "eth_getBlockTransactionCountByNumber"@
    ||| m == "eth_getCode"@
    ||| m == "eth_getProof"@
    ||| m == "eth_getStorageAt"@
    ||| m == "eth_getTransactionCount"@
    ||| m == "eth_getUncleCountByBlockHash"@
    ||| m == "eth_getUncleCountByBlockNumber"@
    ||| m == "eth_maxPriorityFeePerGas"@
    ||| m == "eth_protocolVersion"@
}

/// Method names with a known medium-sized response shape.
pub open spec fn spec_is_medium_method(m: Seq<char>) -> bool {
    ||| m == "eth_feeHistory"@
    ||| m == "eth_getTransactionByBlockHashAndIndex"@
    ||| m == "eth_getTransactionByHash"@
}

/// Size tier of one method name: the small and medium ceilings for the known
/// shapes, the conservative unknown ceiling for everything else.
pub open spec fn spec_tier(m: Seq<char>) -> u64 {
    if spec_is_small_method(m) {
        MAX_RESPONSE_SIZE_SMALL
    } else if spec_is_medium_method(m) {
        MAX_RESPONSE_SIZE_MEDIUM
    } else {
        MAX_RESPONSE_SIZE_UNKNOWN
    }
}

/// Estimate for a batch: the arithmetic sum of the members' tiers.
pub open spec fn spec_batch_estimate(rs: Seq<SerializedRequest>) -> int
    decreases rs.len(),
{
    if rs.len() == 0 {
        0
    } else {
        spec_batch_estimate(rs.drop_last()) + spec_tier(rs.last().method@)
    }
}

/// Estimate for a packet: the tier of a single request's method, the summed
/// tiers of a batch's methods.
pub open spec fn spec_estimate(p: RequestPacket) -> int {
    match p {
        RequestPacket::Single(r) => spec_tier(r.method@) as int,
        RequestPacket::Batch(rs) => spec_batch_estimate(rs@),
    }
}

/// The batch estimate is nonnegative and bounded by the unknown tier times
/// the batch length.
pub proof fn lemma_batch_estimate_bounds(rs: Seq<SerializedRequest>)
    ensures
        0 <= spec_batch_estimate(rs),
        spec_batch_estimate(rs) <= (MAX_RESPONSE_SIZE_UNKNOWN as int) * rs.len(),
    decreases rs.len(),
{
    if rs.len() > 0 {
        lemma_batch_estimate_bounds(rs.drop_last());
    }
}

/// The batch estimate distributes over concatenation of batches.
pub proof fn lemma_batch_estimate_concat(rs1: Seq<SerializedRequest>, rs2: Seq<SerializedRequest>)
    ensures
        spec_batch_estimate(rs1 + rs2) == spec_batch_estimate(rs1) + spec_batch_estimate(rs2),
    decreases rs2.len(),
{
    if rs2.len() == 0 {
        assert(rs1 + rs2 =~= rs1);
    } else {
        assert((rs1 + rs2).drop_last() =~= rs1 + rs2.drop_last());
        assert((rs1 + rs2).last() == rs2.last());
        lemma_batch_estimate_concat(rs1, rs2.drop_last());
    }
}

/// One member's tier can be split off the batch estimate at any position.
proof fn lemma_batch_estimate_remove(rs: Seq<SerializedRequest>, i: int)
    requires
        0 <= i < rs.len(),
    ensures
        spec_batch_estimate(rs) == spec_batch_estimate(rs.remove(i)) + spec_tier(rs[i].method@),
    decreases rs.len(),
{
    let front = rs.subrange(0, i);
    let mid = seq![rs[i]];
    let back = rs.subrange(i + 1, rs.len() as int);
    assert(rs =~= (front + mid) + back);
    assert(rs.remove(i) =~= front + back);
    lemma_batch_estimate_concat(front + mid, back);
    lemma_batch_estimate_concat(front, mid);
    lemma_batch_estimate_concat(front, back);
    assert(spec_batch_estimate(mid) == spec_tier(rs[i].method@)) by {
        reveal_with_fuel(spec_batch_estimate, 2);
    }
}

/// The batch estimate is a commutative sum: two batches holding the same
/// requests, in whatever order, estimate alike.
pub proof fn lemma_batch_estimate_permutation(
    rs1: Seq<SerializedRequest>,
    rs2: Seq<SerializedRequest>,
)
    requires
        rs1.to_multiset() == rs2.to_multiset(),
    ensures
        spec_batch_estimate(rs1) == spec_batch_estimate(rs2),
    decreases rs1.len(),
{
    broadcast use vstd::seq_lib::group_to_multiset_ensures;
    broadcast use vstd::multiset::group_multiset_axioms;

    if rs1.len() == 0 {
        assert(rs2.to_multiset().len() == 0);
    } else {
        let i1: int = rs1.len() - 1;
        let x = rs1[i1];
        assert(rs1.contains(x)) by {
            assert(0 <= i1 < rs1.len() && rs1[i1] == x);
        }
        assert(rs1.to_multiset().count(x) > 0);
        assert(rs2.to_multiset().count(x) > 0);
        assert(rs2.contains(x));
        let j: int = choose|j: int| 0 <= j < rs2.len() && rs2[j] == x;
        assert(rs1.remove(i1).to_multiset() =~= rs1.to_multiset().remove(x));
        assert(rs2.remove(j).to_multiset() =~= rs2.to_multiset().remove(x));
        assert(rs1.remove(i1) =~= rs1.drop_last());
        lemma_batch_estimate_remove(rs2, j);
        lemma_batch_estimate_permutation(rs1.drop_last(), rs2.remove(j));
    }
}

fn method_eq(m: &String, lit: &str) -> (r: bool)
    ensures
        r == (m@ == lit@),
{
    let l = String::from_str(lit);
    *m == l
}

/// Tier lookup for one request's method name.
pub fn method_tier(m: &String) -> (t: u64)
    ensures
        t == spec_tier(m@),
{
    if method_eq(m, "eth_blockNumber") || method_eq(m, "eth_getBalance")
        || method_eq(m, "eth_chainId") || method_eq(m, "eth_estimateGas")
        || method_eq(m, "eth_gasPrice") || method_eq(m, "eth_getBlockTransactionCountByHash")
        || method_eq(m, "eth_getBlockTransactionCountByNumber") || method_eq(m, "eth_getCode")
        || method_eq(m, "eth_getProof") || method_eq(m, "eth_getStorageAt")
        || method_eq(m, "eth_getTransactionCount")
        || method_eq(m, "eth_getUncleCountByBlockHash")
        || method_eq(m, "eth_getUncleCountByBlockNumber")
        || method_eq(m, "eth_maxPriorityFeePerGas") || method_eq(m, "eth_protocolVersion") {
        MAX_RESPONSE_SIZE_SMALL
    } else if method_eq(m, "eth_feeHistory")
        || method_eq(m, "eth_getTransactionByBlockHashAndIndex")
        || method_eq(m, "eth_getTransactionByHash") {
        MAX_RESPONSE_SIZE_MEDIUM
    } else {
        MAX_RESPONSE_SIZE_UNKNOWN
    }
}

/// Byte budget to declare for one packet, from the per-method tier table:
/// the tier of a single request, the summed tiers of a batch.
pub fn estimate_response_size(packet: &RequestPacket) -> (n: u64)
    requires
        packet matches RequestPacket::Batch(rs) ==> rs@.len() <= MAX_ESTIMATED_BATCH_LEN,
    ensures
        n as int == spec_estimate(*packet),
{
    match packet {
        RequestPacket::Single(r) => method_tier(&r.method),
        RequestPacket::Batch(rs) => {
            let mut total: u64 = 0;
            let mut i: usize = 0;
            while i < rs.len()
                invariant
                    i <= rs@.len(),
                    rs@.len() <= MAX_ESTIMATED_BATCH_LEN,
                    total as int == spec_batch_estimate(rs@.take(i as int)),
                decreases rs@.len() - i,
            {
                let t: u64 = method_tier(&rs[i].method);
                proof {
                    assert(rs@.take(i + 1).drop_last() =~= rs@.take(i as int));
                    assert(rs@.take(i + 1).last() == rs@[i as int]);
                    lemma_batch_estimate_bounds(rs@.take(i + 1));
                }
                total = total + t;
                i = i + 1;
            }
            proof {
                assert(rs@.take(rs@.len() as int) =~= rs@);
            }
            total
        },
    }
}

} // verus!
