//! Tests of the depth-tracking walker's rendering.

use dwarf_depth_dump::records::{NodeInfo, UnitData};
use dwarf_depth_dump::walker::{render_dump, render_unit, unit_depths};

fn node(delta: i64) -> NodeInfo {
    NodeInfo { delta, offset: 0, tag: String::new() }
}

fn unit(deltas: &[i64]) -> UnitData {
    UnitData { offset: 0, version: 4, nodes: deltas.iter().map(|d| node(*d)).collect() }
}

#[test]
fn single_root_yields_one_record() {
    let out = render_dump(&vec![unit(&[0])]);
    assert_eq!(out, b"--\n0 0\n".to_vec());
}

#[test]
fn chain_accumulates_depth() {
    let out = render_dump(&vec![unit(&[0, 1, 1])]);
    assert_eq!(out, b"--\n0 0\n1 1\n1 2\n".to_vec());
}

#[test]
fn sibling_keeps_depth() {
    let out = render_dump(&vec![unit(&[0, 1, 0])]);
    assert_eq!(out, b"--\n0 0\n1 1\n0 1\n".to_vec());
}

#[test]
fn two_units_each_restart_at_zero() {
    let out = render_dump(&vec![unit(&[0]), unit(&[0])]);
    assert_eq!(out, b"--\n0 0\n--\n0 0\n".to_vec());
}

#[test]
fn unit_after_deep_unit_restarts_at_zero() {
    let out = render_dump(&vec![unit(&[0, 1, 1]), unit(&[0, 1])]);
    assert_eq!(out, b"--\n0 0\n1 1\n1 2\n--\n0 0\n1 1\n".to_vec());
}

#[test]
fn negative_delta_moves_back_up() {
    let out = render_dump(&vec![unit(&[0, 1, -1, 1])]);
    assert_eq!(out, b"--\n0 0\n1 1\n-1 0\n1 1\n".to_vec());
}

#[test]
fn empty_traversal_renders_nothing() {
    let out = render_dump(&vec![]);
    assert_eq!(out, Vec::<u8>::new());
}

#[test]
fn unit_with_no_nodes_renders_only_separator() {
    let out = render_dump(&vec![unit(&[])]);
    assert_eq!(out, b"--\n".to_vec());
}

#[test]
fn extreme_deltas_render_exactly() {
    let out = render_dump(&vec![unit(&[i64::MIN, i64::MAX])]);
    let expected = format!(
        "--\n{} {}\n{} {}\n",
        i64::MIN,
        i64::MIN as i128,
        i64::MAX,
        i64::MIN as i128 + i64::MAX as i128,
    );
    assert_eq!(out, expected.into_bytes());
}

#[test]
fn render_unit_appends_to_existing_output() {
    let mut out = b"x".to_vec();
    render_unit(&mut out, &unit(&[0, 1]).nodes);
    assert_eq!(out, b"x--\n0 0\n1 1\n".to_vec());
}

#[test]
fn rendering_twice_is_byte_identical() {
    let units = vec![unit(&[0, 1, 0, -1]), unit(&[0])];
    let first = render_dump(&units);
    let second = render_dump(&units);
    assert_eq!(first, second);
}

#[test]
fn depths_are_prefix_sums_of_deltas() {
    let u = unit(&[0, 1, 1, -1, 1]);
    let depths = unit_depths(&u.nodes);
    assert_eq!(depths, vec![0, 1, 2, 1, 2]);
}

#[test]
fn first_depth_equals_first_delta() {
    let u = unit(&[0, 1]);
    let depths = unit_depths(&u.nodes);
    assert_eq!(depths[0], 0);
    let v = unit(&[5, 1]);
    let depths_v = unit_depths(&v.nodes);
    assert_eq!(depths_v[0], 5);
}
