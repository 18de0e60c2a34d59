//! The plain values the traversal hands to the walker.

use vstd::prelude::*;

verus! {

/// One visited debug-information entry: the depth delta the cursor reported
/// for it, its offset within the unit, and its tag name.
#[derive(Clone, Debug, PartialEq, Eq)]
pub struct NodeInfo {
    pub delta: i64,
    pub offset: u64,
    pub tag: String,
}

/// One compilation unit: its offset within the debug-information section,
/// its version, and its visited nodes in depth-first pre-order.
#[derive(Clone, Debug, PartialEq, Eq)]
pub struct UnitData {
    pub offset: u64,
    pub version: u16,
    pub nodes: Vec<NodeInfo>,
}

/// Why a dump failed. Every failure is fatal: the caller stops at the first.
#[derive(Clone, Copy, Debug, PartialEq, Eq)]
pub enum DumpError {
    /// The input bytes are not a recognized object-container format.
    UnrecognizedContainer,
    /// A debug section is present but its data could not be read or
    /// decompressed.
    UnreadableSection,
    /// The debug-information sections could not be decoded.
    MalformedDebugInfo,
}

/// What one node record holds, as plain values: the delta-depth, the entry's
/// offset within the unit, and the tag text.
pub type NodeDesc = (i64, u64, Seq<char>);

/// What one unit holds, as plain values: its offset in the section, its
/// version, and its nodes in traversal order.
pub type UnitDesc = (u64, u16, Seq<NodeDesc>);

/// The plain description of one node record.
pub open spec fn node_desc(n: NodeInfo) -> NodeDesc {
    (n.delta, n.offset, n.tag@)
}

/// The plain descriptions of a unit's node records, in order.
pub open spec fn node_descs(ns: Seq<NodeInfo>) -> Seq<NodeDesc> {
    ns.map(|i: int, n: NodeInfo| node_desc(n))
}

/// The plain description of one collected unit.
pub open spec fn unit_info(u: UnitData) -> UnitDesc {
    (u.offset, u.version, node_descs(u.nodes@))
}

/// The plain descriptions of the collected units, in order.
pub open spec fn units_info_of(us: Seq<UnitData>) -> Seq<UnitDesc> {
    us.map(|i: int, u: UnitData| unit_info(u))
}

/// The delta-depths of one unit's nodes, in traversal order.
pub open spec fn node_deltas(nodes: Seq<NodeInfo>) -> Seq<int> {
    nodes.map(|i: int, n: NodeInfo| n.delta as int)
}

/// The per-unit delta-depth sequences of a whole traversal.
pub open spec fn deltas_view(us: Seq<UnitData>) -> Seq<Seq<int>> {
    us.map(|i: int, u: UnitData| node_deltas(u.nodes@))
}

} // verus!
