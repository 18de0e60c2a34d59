//! Tests of the traversal over real object and DWARF bytes.

use dwarf_depth_dump::dwarf::{collect_object, collect_sections, dump_object};
use dwarf_depth_dump::records::DumpError;
use dwarf_depth_dump::walker::render_dump;

/// A one-unit `.debug_info` section, DWARF32 version 4, little endian, whose
/// entries are the given abbreviation codes and null terminators.
fn info_le(dies: &[u8]) -> Vec<u8> {
    let len = (7 + dies.len()) as u32;
    let mut v = len.to_le_bytes().to_vec();
    v.extend_from_slice(&4u16.to_le_bytes());
    v.extend_from_slice(&0u32.to_le_bytes());
    v.push(8);
    v.extend_from_slice(dies);
    v
}

/// Abbreviations: code 1 is a compile unit with children, code 2 a
/// subprogram with children, code 3 a variable without children, all
/// without attributes.
fn abbrevs() -> Vec<u8> {
    vec![
        0x01, 0x11, 0x01, 0x00, 0x00, // compile unit, has children
        0x02, 0x2e, 0x01, 0x00, 0x00, // subprogram, has children
        0x03, 0x34, 0x00, 0x00, 0x00, // variable, no children
        0x00,
    ]
}

/// A minimal ELF that carries the two DWARF sections.
fn elf_with(info: &[u8], abbrev: &[u8]) -> Vec<u8> {
    let mut obj = object::write::Object::new(
        object::BinaryFormat::Elf,
        object::Architecture::X86_64,
        object::Endianness::Little,
    );
    let s = obj.add_section(Vec::new(), b".debug_info".to_vec(), object::SectionKind::Debug);
    obj.append_section_data(s, info, 1);
    let s = obj.add_section(Vec::new(), b".debug_abbrev".to_vec(), object::SectionKind::Debug);
    obj.append_section_data(s, abbrev, 1);
    obj.write().expect("a well-formed ELF")
}

#[test]
fn single_root_unit() {
    let info = info_le(&[0x01, 0x00]);
    let units = collect_sections(&info, &abbrevs(), true).expect("well-formed sections");
    assert_eq!(units.len(), 1);
    assert_eq!(units[0].offset, 0);
    assert_eq!(units[0].version, 4);
    assert_eq!(units[0].nodes.len(), 1);
    assert_eq!(units[0].nodes[0].delta, 0);
    assert_eq!(units[0].nodes[0].offset, 11);
    assert_eq!(units[0].nodes[0].tag, "DW_TAG_compile_unit");
    assert_eq!(render_dump(&units), b"--\n0 0\n".to_vec());
}

#[test]
fn chain_of_three_entries() {
    let info = info_le(&[0x01, 0x02, 0x03, 0x00, 0x00]);
    let units = collect_sections(&info, &abbrevs(), true).expect("well-formed sections");
    assert_eq!(units.len(), 1);
    let deltas: Vec<i64> = units[0].nodes.iter().map(|n| n.delta).collect();
    assert_eq!(deltas, vec![0, 1, 1]);
    let tags: Vec<&str> = units[0].nodes.iter().map(|n| n.tag.as_str()).collect();
    assert_eq!(tags, vec!["DW_TAG_compile_unit", "DW_TAG_subprogram", "DW_TAG_variable"]);
    assert_eq!(render_dump(&units), b"--\n0 0\n1 1\n1 2\n".to_vec());
}

#[test]
fn two_sibling_entries() {
    let info = info_le(&[0x01, 0x03, 0x03, 0x00]);
    let units = collect_sections(&info, &abbrevs(), true).expect("well-formed sections");
    let deltas: Vec<i64> = units[0].nodes.iter().map(|n| n.delta).collect();
    assert_eq!(deltas, vec![0, 1, 0]);
    assert_eq!(render_dump(&units), b"--\n0 0\n1 1\n0 1\n".to_vec());
}

#[test]
fn two_units_reset_the_depth_counter() {
    let mut info = info_le(&[0x01, 0x02, 0x03, 0x00, 0x00]);
    let second = info_le(&[0x01, 0x00]);
    info.extend_from_slice(&second);
    let units = collect_sections(&info, &abbrevs(), true).expect("well-formed sections");
    assert_eq!(units.len(), 2);
    assert_eq!(units[0].offset, 0);
    assert_eq!(units[1].offset, 16);
    assert_eq!(render_dump(&units), b"--\n0 0\n1 1\n1 2\n--\n0 0\n".to_vec());
}

#[test]
fn big_endian_sections_decode_too() {
    let mut info = 9u32.to_be_bytes().to_vec();
    info.extend_from_slice(&4u16.to_be_bytes());
    info.extend_from_slice(&0u32.to_be_bytes());
    info.push(8);
    info.push(0x01);
    info.push(0x00);
    let units = collect_sections(&info, &abbrevs(), false).expect("well-formed sections");
    assert_eq!(units.len(), 1);
    assert_eq!(units[0].version, 4);
}

#[test]
fn empty_sections_hold_no_units() {
    let units = collect_sections(&[], &[], true).expect("empty sections are fine");
    assert_eq!(units.len(), 0);
    assert_eq!(render_dump(&units), Vec::<u8>::new());
}

#[test]
fn truncated_unit_is_malformed() {
    let info = vec![0xff, 0xff];
    let r = collect_sections(&info, &abbrevs(), true);
    assert_eq!(r, Err(DumpError::MalformedDebugInfo));
}

#[test]
fn missing_abbreviation_is_malformed() {
    let info = info_le(&[0x07, 0x00]);
    let r = collect_sections(&info, &abbrevs(), true);
    assert_eq!(r, Err(DumpError::MalformedDebugInfo));
}

#[test]
fn unrecognized_container_is_rejected() {
    let r = collect_object(b"this is not an object file");
    assert_eq!(r, Err(DumpError::UnrecognizedContainer));
    let d = dump_object(b"this is not an object file");
    assert!(matches!(d, Err(DumpError::UnrecognizedContainer)));
}

#[test]
fn empty_input_is_rejected() {
    let r = collect_object(&[]);
    assert_eq!(r, Err(DumpError::UnrecognizedContainer));
}

#[test]
fn unreadable_section_is_fatal() {
    // Mark every section of a valid ELF as compressed without giving it a
    // valid compression header: the sections are then present but their data
    // cannot be read, which must abort the dump.
    let mut data = elf_with(&info_le(&[0x01, 0x00]), &abbrevs());
    let shoff = u64::from_le_bytes(data[0x28..0x30].try_into().unwrap()) as usize;
    let shentsize = u16::from_le_bytes(data[0x3a..0x3c].try_into().unwrap()) as usize;
    let shnum = u16::from_le_bytes(data[0x3c..0x3e].try_into().unwrap()) as usize;
    for i in 0..shnum {
        let off = shoff + i * shentsize + 0x08;
        let flags = u64::from_le_bytes(data[off..off + 8].try_into().unwrap());
        data[off..off + 8].copy_from_slice(&(flags | 0x800).to_le_bytes());
    }
    let r = collect_object(&data);
    assert_eq!(r, Err(DumpError::UnreadableSection));
    let d = dump_object(&data);
    assert!(matches!(d, Err(DumpError::UnreadableSection)));
}

#[test]
fn elf_end_to_end_single_root() {
    let data = elf_with(&info_le(&[0x01, 0x00]), &abbrevs());
    let dump = dump_object(&data).expect("a recognized container");
    assert_eq!(dump.units.len(), 1);
    assert_eq!(dump.artifact, b"--\n0 0\n".to_vec());
}

#[test]
fn elf_without_debug_sections_dumps_nothing() {
    let data = elf_with(&[], &[]);
    let dump = dump_object(&data).expect("a recognized container");
    assert_eq!(dump.units.len(), 0);
    assert_eq!(dump.artifact, Vec::<u8>::new());
}

#[test]
fn dumping_twice_is_byte_identical() {
    let data = elf_with(&info_le(&[0x01, 0x02, 0x03, 0x00, 0x00]), &abbrevs());
    let first = dump_object(&data).expect("a recognized container");
    let second = dump_object(&data).expect("a recognized container");
    assert_eq!(first.artifact, second.artifact);
}
