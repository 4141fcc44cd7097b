//! Ring-level laws: how the per-node range operations compose.
//!
//! A ring is modeled by the sequence of its live nodes' ranges in
//! successor-chain order.  The partition invariant says those ranges
//! tile the whole 8-bit bucket space: the chain starts at bucket 0,
//! ends at bucket 255, and each node's range starts right above its
//! predecessor's.  The lemmas here show the invariant holds of the
//! seed, survives any sequence of admitted joins (each one a midpoint
//! split, as `Node::admit_join` performs it), and survives a
//! departure (the neighbor absorbs the whole range, as
//! `Node::on_new_range` performs it); and that successor-chain
//! forwarding, as `Node::handle_val_insert` and its siblings perform
//! it, delivers every key to the unique owner of its bucket.

use vstd::prelude::*;

use crate::node::in_range;

verus! {

/// The ranges of the live nodes, in successor-chain order, tile
/// `0..=255`: contiguous, non-overlapping, nothing missed at either
/// end.
pub open spec fn ranges_partition(rs: Seq<(u8, u8)>) -> bool {
    &&& rs.len() > 0
    &&& rs[0].0 == 0
    &&& rs[rs.len() - 1].1 == 255
    &&& forall|i: int| 0 <= i < rs.len() ==> (#[trigger] rs[i]).0 <= rs[i].1
    &&& forall|i: int| 0 <= i < rs.len() - 1 ==> (#[trigger] rs[i]).1 + 1 == rs[i + 1].0
}

/// The single seed node owns the whole space.
pub open spec fn seed_ring() -> Seq<(u8, u8)> {
    seq![(0u8, 255u8)]
}

/// The ring after node `i` admits a join: `i` keeps the lower half of
/// its range, split at the midpoint, and the joiner enters behind it
/// with the upper half.
pub open spec fn split_at(rs: Seq<(u8, u8)>, i: int) -> Seq<(u8, u8)> {
    let lo = rs[i].0;
    let hi = rs[i].1;
    let mid = (lo + (hi - lo) / 2) as u8;
    rs.take(i) + seq![(lo, mid), ((mid + 1) as u8, hi)] + rs.skip(i + 1)
}

/// The ring after node `i` departs: the successor absorbs the range
/// when it starts at bucket 0, the predecessor absorbs it otherwise —
/// exactly one neighbor either way.
pub open spec fn merge_leave(rs: Seq<(u8, u8)>, i: int) -> Seq<(u8, u8)> {
    if i == 0 {
        seq![(rs[0].0, rs[1].1)] + rs.skip(2)
    } else {
        rs.take(i - 1) + seq![(rs[i - 1].0, rs[i].1)] + rs.skip(i + 1)
    }
}

/// The seed ring is a partition.
pub proof fn lemma_seed_partitions()
    ensures
        ranges_partition(seed_ring()),
{
}

/// One admitted join preserves the partition.  A join is admissible
/// at `i` when node `i`'s range is wider than one bucket, so the
/// midpoint split leaves both halves non-empty.
pub proof fn lemma_split_preserves_partition(rs: Seq<(u8, u8)>, i: int)
    requires
        ranges_partition(rs),
        0 <= i < rs.len(),
        rs[i].0 < rs[i].1,
    ensures
        ranges_partition(split_at(rs, i)),
{
    let out = split_at(rs, i);
    let lo = rs[i].0;
    let hi = rs[i].1;
    let mid = (lo + (hi - lo) / 2) as u8;
    assert(lo <= mid < hi);
    assert(out.len() == rs.len() + 1);
    assert forall|j: int| 0 <= j < out.len() implies (#[trigger] out[j]).0 <= out[j].1 by {
        if j < i {
            assert(out[j] == rs[j]);
        } else if j == i {
            assert(out[j] == (lo, mid));
        } else if j == i + 1 {
            assert(out[j] == ((mid + 1) as u8, hi));
        } else {
            assert(out[j] == rs[j - 1]);
        }
    }
    assert forall|j: int| 0 <= j < out.len() - 1 implies (#[trigger] out[j]).1 + 1 == out[j
        + 1].0 by {
        if j < i - 1 {
            assert(out[j] == rs[j] && out[j + 1] == rs[j + 1]);
        } else if j == i - 1 {
            assert(out[j] == rs[j] && out[j + 1] == (lo, mid));
        } else if j == i {
            assert(out[j] == (lo, mid) && out[j + 1] == ((mid + 1) as u8, hi));
        } else if j == i + 1 {
            assert(out[j] == ((mid + 1) as u8, hi));
            assert(out[j + 1] == rs[j]);
        } else {
            assert(out[j] == rs[j - 1] && out[j + 1] == rs[j]);
        }
    }
    assert(out[0].0 == 0);
    assert(out[out.len() - 1].1 == 255);
}

/// One departure preserves the partition, the departing node's range
/// going whole to exactly one neighbor.
pub proof fn lemma_leave_preserves_partition(rs: Seq<(u8, u8)>, i: int)
    requires
        ranges_partition(rs),
        rs.len() > 1,
        0 <= i < rs.len(),
    ensures
        ranges_partition(merge_leave(rs, i)),
{
    let out = merge_leave(rs, i);
    if i == 0 {
        assert(out.len() == rs.len() - 1);
        assert forall|j: int| 0 <= j < out.len() implies (#[trigger] out[j]).0 <= out[j].1 by {
            if j == 0 {
                assert(out[0] == (rs[0].0, rs[1].1));
            } else {
                assert(out[j] == rs[j + 1]);
            }
        }
        assert forall|j: int| 0 <= j < out.len() - 1 implies (#[trigger] out[j]).1 + 1 == out[j
            + 1].0 by {
            if j == 0 {
                assert(out[1] == rs[2]);
            } else {
                assert(out[j] == rs[j + 1] && out[j + 1] == rs[j + 2]);
            }
        }
        assert(out[out.len() - 1].1 == 255);
    } else {
        assert(out.len() == rs.len() - 1);
        assert forall|j: int| 0 <= j < out.len() implies (#[trigger] out[j]).0 <= out[j].1 by {
            if j < i - 1 {
                assert(out[j] == rs[j]);
            } else if j == i - 1 {
                assert(out[j] == (rs[i - 1].0, rs[i].1));
                assert(rs[i - 1].1 + 1 == rs[i].0);
            } else {
                assert(out[j] == rs[j + 1]);
            }
        }
        assert forall|j: int| 0 <= j < out.len() - 1 implies (#[trigger] out[j]).1 + 1 == out[j
            + 1].0 by {
            if j < i - 2 {
                assert(out[j] == rs[j] && out[j + 1] == rs[j + 1]);
            } else if j == i - 2 {
                assert(out[j] == rs[j]);
                assert(out[j + 1] == (rs[i - 1].0, rs[i].1));
            } else if j == i - 1 {
                assert(out[j] == (rs[i - 1].0, rs[i].1));
                assert(out[j + 1] == rs[i + 1]);
            } else {
                assert(out[j] == rs[j + 1] && out[j + 1] == rs[j + 2]);
            }
        }
        assert(out[0].0 == 0);
        assert(out[out.len() - 1].1 == 255);
    }
}

/// A whole sequence of joins, each at a then-admissible position.
pub open spec fn joins_admissible(rs: Seq<(u8, u8)>, js: Seq<int>) -> bool
    decreases js.len(),
{
    if js.len() == 0 {
        true
    } else {
        &&& 0 <= js[0] < rs.len()
        &&& rs[js[0]].0 < rs[js[0]].1
        &&& joins_admissible(split_at(rs, js[0]), js.drop_first())
    }
}

/// The ring after a whole sequence of joins.
pub open spec fn apply_joins(rs: Seq<(u8, u8)>, js: Seq<int>) -> Seq<(u8, u8)>
    decreases js.len(),
{
    if js.len() == 0 {
        rs
    } else {
        apply_joins(split_at(rs, js[0]), js.drop_first())
    }
}

/// After any sequence of admitted joins, the live ranges still
/// partition the whole space.
pub proof fn lemma_joins_preserve_partition(rs: Seq<(u8, u8)>, js: Seq<int>)
    requires
        ranges_partition(rs),
        joins_admissible(rs, js),
    ensures
        ranges_partition(apply_joins(rs, js)),
    decreases js.len(),
{
    if js.len() > 0 {
        lemma_split_preserves_partition(rs, js[0]);
        lemma_joins_preserve_partition(split_at(rs, js[0]), js.drop_first());
    }
}

/// In a partitioned ring, later nodes own strictly higher buckets.
proof fn lemma_ranges_ascend(rs: Seq<(u8, u8)>, i: int, j: int)
    requires
        ranges_partition(rs),
        0 <= i < j < rs.len(),
    ensures
        rs[i].1 < rs[j].0,
    decreases j - i,
{
    if j == i + 1 {
    } else {
        lemma_ranges_ascend(rs, i, j - 1);
    }
}

/// No bucket lies in two nodes' ranges.
pub proof fn lemma_owner_unique(rs: Seq<(u8, u8)>, i: int, j: int, b: u8)
    requires
        ranges_partition(rs),
        0 <= i < rs.len(),
        0 <= j < rs.len(),
        in_range(rs[i].0, rs[i].1, b),
        in_range(rs[j].0, rs[j].1, b),
    ensures
        i == j,
{
    if i < j {
        lemma_ranges_ascend(rs, i, j);
    } else if j < i {
        lemma_ranges_ascend(rs, j, i);
    }
}

/// Where successor-chain forwarding from node `from` delivers a
/// message for bucket `b`: the first node at or after `from` whose
/// range holds `b`.  Each step is what one node's routing rule does —
/// apply locally when the bucket is owned here, else hand the message
/// unmodified to the successor.
pub open spec fn route_from(rs: Seq<(u8, u8)>, from: int, b: u8) -> Option<int>
    decreases rs.len() - from,
{
    if from < 0 || from >= rs.len() {
        None
    } else if in_range(rs[from].0, rs[from].1, b) {
        Some(from)
    } else {
        route_from(rs, from + 1, b)
    }
}

/// In a partitioned ring no bucket is unowned: the union of the live
/// ranges is the whole space.
pub proof fn lemma_partition_covers(rs: Seq<(u8, u8)>, b: u8)
    requires
        ranges_partition(rs),
    ensures
        exists|i: int| 0 <= i < rs.len() && in_range((#[trigger] rs[i]).0, rs[i].1, b),
{
    lemma_route_reaches_owner(rs, 0, b);
    let owner = route_from(rs, 0, b)->0;
    assert(0 <= owner < rs.len() && in_range(rs[owner].0, rs[owner].1, b));
}

/// Routing correctness: in a partitioned ring, a message entering at
/// any node at or below its bucket's owner is delivered, by successor
/// forwarding alone, to that owner — which is the only node whose
/// range holds the bucket.
pub proof fn lemma_route_reaches_owner(rs: Seq<(u8, u8)>, from: int, b: u8)
    requires
        ranges_partition(rs),
        0 <= from < rs.len(),
        rs[from].0 <= b,
    ensures
        route_from(rs, from, b) matches Some(owner) && {
            &&& 0 <= owner < rs.len()
            &&& in_range(rs[owner].0, rs[owner].1, b)
            &&& forall|j: int|
                0 <= j < rs.len() && in_range((#[trigger] rs[j]).0, rs[j].1, b) ==> j == owner
        },
    decreases rs.len() - from,
{
    if in_range(rs[from].0, rs[from].1, b) {
        let owner = from;
        assert forall|j: int|
            0 <= j < rs.len() && in_range((#[trigger] rs[j]).0, rs[j].1, b) implies j == owner by {
            lemma_owner_unique(rs, owner, j, b);
        }
    } else {
        assert(b > rs[from].1);
        assert(from < rs.len() - 1) by {
            if from == rs.len() - 1 {
                assert(rs[from].1 == 255);
            }
        }
        assert(rs[from + 1].0 == rs[from].1 + 1);
        lemma_route_reaches_owner(rs, from + 1, b);
    }
}

} // verus!
