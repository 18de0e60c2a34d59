//! The depth-tracking tree walker.
//!
//! The walker turns a stream of relative depth movements into absolute
//! depths and renders both per node: for each compilation unit a separator
//! line `--`, then for each node one line `<delta-depth> <absolute-depth>`.
//! The functions here are total and their output is pinned exactly to the
//! spec functions, so two runs over the same deltas give identical bytes.

use crate::records::{deltas_view, node_deltas, NodeInfo, UnitData};
use vstd::prelude::*;

verus! {

/// Decimal digits of a nonnegative integer, most significant digit first.
pub open spec fn spec_digits(n: nat) -> Seq<u8>
    decreases n,
{
    if n < 10 {
        seq![(48 + n) as u8]
    } else {
        spec_digits(n / 10).push((48 + n % 10) as u8)
    }
}

/// Decimal text of an integer: a minus sign before the digits when negative.
pub open spec fn spec_int_text(n: int) -> Seq<u8> {
    if n >= 0 {
        spec_digits(n as nat)
    } else {
        seq![45u8] + spec_digits((-n) as nat)
    }
}

/// One record line: the delta-depth, a space, the absolute depth, a newline.
pub open spec fn spec_record_line(delta: int, depth: int) -> Seq<u8> {
    spec_int_text(delta) + seq![32u8] + spec_int_text(depth) + seq![10u8]
}

/// The sum of a sequence of delta-depths.
pub open spec fn spec_sum(ds: Seq<int>) -> int
    decreases ds.len(),
{
    if ds.len() == 0 {
        0
    } else {
        spec_sum(ds.drop_last()) + ds.last()
    }
}

/// The absolute depth after processing the node at position `i`: the sum of
/// all delta-depths yielded up to and including that node, from a counter
/// that starts at 0.
pub open spec fn spec_depth_after(ds: Seq<int>, i: int) -> int {
    spec_sum(ds.take(i + 1))
}

/// The record lines of one compilation unit, one per node.
pub open spec fn spec_unit_lines(ds: Seq<int>) -> Seq<u8>
    decreases ds.len(),
{
    if ds.len() == 0 {
        seq![]
    } else {
        spec_unit_lines(ds.drop_last()) + spec_record_line(ds.last(), spec_sum(ds))
    }
}

/// The separator line `--` that opens each compilation unit's records.
pub open spec fn spec_separator() -> Seq<u8> {
    seq![45u8, 45u8, 10u8]
}

/// All bytes one compilation unit contributes: the separator, then its lines.
pub open spec fn spec_unit_dump(ds: Seq<int>) -> Seq<u8> {
    spec_separator() + spec_unit_lines(ds)
}

/// The whole artifact: each unit's contribution, in unit order.
pub open spec fn spec_dump(us: Seq<Seq<int>>) -> Seq<u8>
    decreases us.len(),
{
    if us.len() == 0 {
        seq![]
    } else {
        spec_dump(us.drop_last()) + spec_unit_dump(us.last())
    }
}

/// Append the decimal digits of `n`.
fn push_digits(out: &mut Vec<u8>, n: u128)
    ensures
        final(out)@ == old(out)@ + spec_digits(n as nat),
    decreases n,
{
    if n < 10 {
        let d: u8 = n as u8;
        out.push(48 + d);
        proof {
            assert(old(out)@.push((48 + d) as u8) =~= old(out)@ + spec_digits(n as nat));
        }
    } else {
        push_digits(out, n / 10);
        let d: u8 = (n % 10) as u8;
        let ghost mid = out@;
        out.push(48 + d);
        proof {
            assert(mid.push((48 + d) as u8) =~= old(out)@ + spec_digits(n as nat));
        }
    }
}

/// Append the decimal text of `n`.
fn push_int(out: &mut Vec<u8>, n: i128)
    requires
        n > i128::MIN,
    ensures
        final(out)@ == old(out)@ + spec_int_text(n as int),
{
    if n >= 0 {
        push_digits(out, n as u128);
    } else {
        out.push(45);
        let ghost mid = out@;
        push_digits(out, (-n) as u128);
        proof {
            assert(mid =~= old(out)@ + seq![45u8]);
            assert(old(out)@ + seq![45u8] + spec_digits((-n) as nat) =~= old(out)@
                + spec_int_text(n as int));
        }
    }
}

/// Append one record line for a node.
fn push_record(out: &mut Vec<u8>, delta: i64, depth: i128)
    requires
        depth > i128::MIN,
    ensures
        final(out)@ == old(out)@ + spec_record_line(delta as int, depth as int),
{
    push_int(out, delta as i128);
    out.push(32);
    push_int(out, depth);
    out.push(10);
    proof {
        assert(old(out)@ + spec_int_text(delta as int) + seq![32u8] + spec_int_text(depth as int)
            + seq![10u8] =~= old(out)@ + spec_record_line(delta as int, depth as int));
    }
}

/// Append everything one compilation unit contributes to the artifact: the
/// separator line, then one record per node. The depth counter starts at 0
/// for the unit and accumulates each node's delta-depth.
pub fn render_unit(out: &mut Vec<u8>, nodes: &Vec<NodeInfo>)
    ensures
        final(out)@ == old(out)@ + spec_unit_dump(node_deltas(nodes@)),
{
    out.push(45);
    out.push(45);
    out.push(10);
    let ghost ds = node_deltas(nodes@);
    proof {
        assert(out@ =~= old(out)@ + spec_separator());
        assert(ds.take(0) =~= Seq::<int>::empty());
    }
    let mut depth: i128 = 0;
    let mut i: usize = 0;
    while i < nodes.len()
        invariant
            i <= nodes.len(),
            ds == node_deltas(nodes@),
            ds.len() == nodes@.len(),
            depth == spec_sum(ds.take(i as int)),
            -0x8000_0000_0000_0000 * (i as int) <= depth,
            depth <= 0x8000_0000_0000_0000 * (i as int),
            out@ == old(out)@ + spec_separator() + spec_unit_lines(ds.take(i as int)),
        decreases nodes.len() - i,
    {
        let d: i64 = nodes[i].delta;
        proof {
            assert(ds[i as int] == nodes@[i as int].delta as int);
            assert(ds.take(i as int + 1).drop_last() =~= ds.take(i as int));
            assert(ds.take(i as int + 1).last() == ds[i as int]);
        }
        depth = depth + (d as i128);
        let ghost mid = out@;
        push_record(out, d, depth);
        proof {
            assert(mid + spec_record_line(d as int, depth as int) =~= old(out)@
                + spec_separator() + spec_unit_lines(ds.take(i as int + 1)));
        }
        i = i + 1;
    }
    proof {
        assert(ds.take(nodes@.len() as int) =~= ds);
        assert(old(out)@ + spec_separator() + spec_unit_lines(ds) =~= old(out)@
            + spec_unit_dump(ds));
    }
}

/// Render the whole artifact for a traversal: each unit's separator line and
/// records, in unit order, with the depth counter reset to 0 per unit.
pub fn render_dump(units: &Vec<UnitData>) -> (out: Vec<u8>)
    ensures
        out@ == spec_dump(deltas_view(units@)),
{
    let ghost us = deltas_view(units@);
    let mut out: Vec<u8> = Vec::new();
    proof {
        assert(us.take(0) =~= Seq::<Seq<int>>::empty());
        assert(out@ =~= spec_dump(us.take(0)));
    }
    let mut k: usize = 0;
    while k < units.len()
        invariant
            k <= units.len(),
            us == deltas_view(units@),
            us.len() == units@.len(),
            out@ == spec_dump(us.take(k as int)),
        decreases units.len() - k,
    {
        proof {
            assert(us[k as int] == node_deltas(units@[k as int].nodes@));
            assert(us.take(k as int + 1).drop_last() =~= us.take(k as int));
            assert(us.take(k as int + 1).last() == us[k as int]);
        }
        render_unit(&mut out, &units[k].nodes);
        k = k + 1;
    }
    proof {
        assert(us.take(units@.len() as int) =~= us);
    }
    out
}

/// The absolute depth of each node of one unit, in traversal order.
pub fn unit_depths(nodes: &Vec<NodeInfo>) -> (r: Vec<i128>)
    ensures
        r@.len() == nodes@.len(),
        forall|i: int|
            0 <= i < nodes@.len() ==> r@[i] == spec_depth_after(node_deltas(nodes@), i),
{
    let ghost ds = node_deltas(nodes@);
    let mut r: Vec<i128> = Vec::new();
    let mut depth: i128 = 0;
    let mut i: usize = 0;
    proof {
        assert(ds.take(0) =~= Seq::<int>::empty());
    }
    while i < nodes.len()
        invariant
            i <= nodes.len(),
            ds == node_deltas(nodes@),
            ds.len() == nodes@.len(),
            r@.len() == i,
            depth == spec_sum(ds.take(i as int)),
            -0x8000_0000_0000_0000 * (i as int) <= depth,
            depth <= 0x8000_0000_0000_0000 * (i as int),
            forall|j: int| 0 <= j < i ==> r@[j] == spec_depth_after(ds, j),
        decreases nodes.len() - i,
    {
        let d: i64 = nodes[i].delta;
        proof {
            assert(ds[i as int] == nodes@[i as int].delta as int);
            assert(ds.take(i as int + 1).drop_last() =~= ds.take(i as int));
            assert(ds.take(i as int + 1).last() == ds[i as int]);
        }
        depth = depth + (d as i128);
        r.push(depth);
        i = i + 1;
    }
    r
}

/// Law: the absolute depth after processing the first node of a compilation
/// unit equals that node's own delta-depth, since the counter starts at 0.
pub proof fn lemma_first_node_depth(ds: Seq<int>)
    requires
        ds.len() > 0,
    ensures
        spec_depth_after(ds, 0) == ds[0],
{
    assert(ds.take(1).len() == 1);
    assert(ds.take(1).drop_last() =~= Seq::<int>::empty());
    assert(ds.take(1).last() == ds[0]);
    assert(spec_sum(Seq::<int>::empty()) == 0);
    assert(spec_sum(ds.take(1)) == spec_sum(ds.take(1).drop_last()) + ds.take(1).last());
}

/// The delta-depths of a depth profile: the first node's own depth, then the
/// change in depth at each later node.
pub open spec fn spec_deltas_of(ps: Seq<int>) -> Seq<int> {
    Seq::new(ps.len(), |i: int| if i == 0 { ps[0] } else { ps[i] - ps[i - 1] })
}

/// A delta sequence is tree-shaped when it is the delta encoding of the
/// depths of a depth-first pre-order walk over a tree: the root at depth 0,
/// every node at a nonnegative depth, and no node more than one level below
/// its predecessor.
pub open spec fn tree_shaped(ds: Seq<int>) -> bool {
    exists|ps: Seq<int>|
        ps.len() == ds.len() && (ps.len() > 0 ==> ps[0] == 0) && (forall|i: int|
            0 <= i < ps.len() ==> ps[i] >= 0) && (forall|i: int|
            0 < i < ps.len() ==> #[trigger] ps[i] <= ps[i - 1] + 1) && ds == spec_deltas_of(ps)
}

/// Accumulating the deltas of a depth profile recovers the profile.
proof fn lemma_depth_of_profile(ps: Seq<int>, i: int)
    requires
        0 <= i < ps.len(),
    ensures
        spec_depth_after(spec_deltas_of(ps), i) == ps[i],
    decreases i,
{
    let ds = spec_deltas_of(ps);
    if i == 0 {
        lemma_first_node_depth(ds);
    } else {
        lemma_depth_of_profile(ps, i - 1);
        assert(ds.take(i + 1).drop_last() =~= ds.take(i));
        assert(ds.take(i + 1).last() == ds[i]);
    }
}

/// Law: over a tree-shaped delta sequence the absolute depth is nonnegative
/// at every node.
pub proof fn lemma_depth_nonneg(ds: Seq<int>, i: int)
    requires
        tree_shaped(ds),
        0 <= i < ds.len(),
    ensures
        spec_depth_after(ds, i) >= 0,
{
    let ps = choose|ps: Seq<int>|
        ps.len() == ds.len() && (ps.len() > 0 ==> ps[0] == 0) && (forall|i: int|
            0 <= i < ps.len() ==> ps[i] >= 0) && (forall|i: int|
            0 < i < ps.len() ==> #[trigger] ps[i] <= ps[i - 1] + 1) && ds == spec_deltas_of(ps);
    lemma_depth_of_profile(ps, i);
}

/// Law: the artifact is a function of the delta sequences alone, so two runs
/// of the walker over the same unmodified input yield byte-identical output.
pub proof fn lemma_dump_deterministic(a: Seq<Seq<int>>, b: Seq<Seq<int>>)
    requires
        a == b,
    ensures
        spec_dump(a) == spec_dump(b),
{
}

/// Law: the depth counter is reset at the start of each compilation unit:
/// the bytes a unit contributes are those of its own deltas alone, whatever
/// units came before it and at whatever depth they ended.
pub proof fn lemma_unit_reset(us: Seq<Seq<int>>, u: Seq<int>)
    ensures
        spec_dump(us.push(u)) == spec_dump(us) + spec_unit_dump(u),
{
    assert(us.push(u).drop_last() =~= us);
    assert(us.push(u).last() == u);
}

} // verus!
