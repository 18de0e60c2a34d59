//! Traversal of the debug-information tree of an object file.
//!
//! The container and DWARF decoding is done by the `object` and `gimli`
//! crates behind trusted wrappers; the loops that drive the cursors, the
//! collection of the per-unit delta-depths and the rendering of the artifact
//! are verified. The crates' reader types carry trait bounds the verifier
//! cannot declare, so each is held opaquely in a field of a struct of this
//! module.
//!
//! Because the decoding is deterministic — a function of the section bytes
//! and the byte order alone — its outcome is named by uninterpreted spec
//! functions (`decode_heads`, `head_meta`, `unit_nodes`, ...), and each
//! opaque value carries a view naming the bytes it was parsed from and how
//! far it has advanced. The wrappers' contracts state each step's outcome
//! over those names, and the traversal's contracts then pin the collected
//! units to the input bytes.

use crate::records::{
    deltas_view, node_desc, node_descs, units_info_of, DumpError, NodeDesc, NodeInfo, UnitData,
    UnitDesc,
};
use crate::walker::{render_dump, spec_dump};
use object::Object;
use object::ObjectSection;
use vstd::prelude::*;

verus! {

#[verifier::external_type_specification]
#[verifier::external_body]
pub struct ExObjectError(object::read::Error);

#[verifier::external_type_specification]
#[verifier::external_body]
pub struct ExGimliError(gimli::read::Error);

#[verifier::external_type_specification]
#[verifier::external_body]
pub struct ExAbbreviations(gimli::read::Abbreviations);

/// A parsed object-container file.
#[verifier::external_body]
pub struct ParsedObject<'d> {
    file: object::File<'d>,
}

/// The debug-information section, wrapped with its byte order.
#[verifier::external_body]
pub struct InfoSection<'i> {
    inner: gimli::read::DebugInfo<gimli::EndianSlice<'i, gimli::RunTimeEndian>>,
}

/// The abbreviation section, wrapped with its byte order.
#[verifier::external_body]
pub struct AbbrevSection<'i> {
    inner: gimli::read::DebugAbbrev<gimli::EndianSlice<'i, gimli::RunTimeEndian>>,
}

/// An iterator over the compilation-unit headers of the section.
#[verifier::external_body]
pub struct UnitsIter<'i> {
    inner: gimli::read::DebugInfoUnitHeadersIter<gimli::EndianSlice<'i, gimli::RunTimeEndian>>,
}

/// One compilation unit's header.
#[verifier::external_body]
pub struct UnitHead<'i> {
    inner: gimli::read::UnitHeader<gimli::EndianSlice<'i, gimli::RunTimeEndian>>,
}

/// A cursor over one unit's debugging information entries, in depth-first
/// pre-order.
#[verifier::external_body]
pub struct EntriesWalk<'abbrev, 'unit, 'i> {
    inner: gimli::read::EntriesCursor<
        'abbrev,
        'unit,
        gimli::EndianSlice<'i, gimli::RunTimeEndian>,
    >,
}

/// Whether `object::File::parse` recognizes these bytes as a container
/// format; recognition is a function of the bytes alone.
pub uninterp spec fn object_parses(data: Seq<u8>) -> bool;

/// The byte order `object::Object::is_little_endian` reports for a parsed
/// container, as a function of the container bytes.
pub uninterp spec fn object_is_le(data: Seq<u8>) -> bool;

/// Whether the named section of the container can be loaded: true when it is
/// absent (its bytes are then empty) or present with readable data, false
/// when it is present but its data cannot be read or decompressed.
pub uninterp spec fn object_section_ok(data: Seq<u8>, name: Seq<char>) -> bool;

/// The bytes of the named section of the container, decompressed when stored
/// compressed, empty when the section is absent.
pub uninterp spec fn object_section(data: Seq<u8>, name: Seq<char>) -> Seq<u8>;

/// The container bytes a parsed object file reads from.
pub uninterp spec fn object_source(f: ParsedObject) -> Seq<u8>;

/// The section bytes and byte order a debug-information section was built
/// from.
pub uninterp spec fn section_state(s: InfoSection) -> (Seq<u8>, bool);

/// The section bytes and byte order an abbreviation section was built from.
pub uninterp spec fn abbrev_state(a: AbbrevSection) -> (Seq<u8>, bool);

/// The view of a unit-headers iterator: the section bytes and byte order it
/// reads, and how many headers it has already yielded. The verifier sees
/// these values opaquely, so the view is consistent: it names the iteration
/// each value belongs to.
pub uninterp spec fn iter_source(it: UnitsIter) -> (Seq<u8>, bool, int);

/// The view of a unit header: the section bytes and byte order it was parsed
/// from, and its index among that section's headers.
pub uninterp spec fn head_source(h: UnitHead) -> (Seq<u8>, bool, int);

/// The view of a parsed abbreviations table: the debug-information
/// coordinates of the unit it was parsed for (section bytes, byte order,
/// unit index) and the abbreviation section bytes and byte order it was
/// parsed from.
pub uninterp spec fn abbrevs_source(a: gimli::read::Abbreviations) -> (
    Seq<u8>,
    bool,
    int,
    Seq<u8>,
    bool,
);

/// The view of an entries cursor: the coordinates of the unit it walks
/// (debug-information bytes, byte order, unit index, abbreviation bytes,
/// byte order) and how many entries it has already yielded.
pub uninterp spec fn cursor_source(c: EntriesWalk) -> (Seq<u8>, bool, int, Seq<u8>, bool, int);

/// What iterating the unit headers of a section yields: how many headers
/// parse before iteration stops, and whether it then ends cleanly (true) or
/// with a parse error (false). A function of the bytes and byte order alone.
pub uninterp spec fn decode_heads(info: Seq<u8>, little: bool) -> (nat, bool);

/// The offset and version of the section's `k`-th unit header.
pub uninterp spec fn head_meta(info: Seq<u8>, little: bool, k: int) -> (u64, u16);

/// Whether the abbreviations for the section's `k`-th unit parse from the
/// given abbreviation section.
pub uninterp spec fn unit_abbrevs_ok(
    info: Seq<u8>,
    little: bool,
    k: int,
    abbrev: Seq<u8>,
    ale: bool,
) -> bool;

/// What walking the entries of the section's `k`-th unit against the given
/// abbreviation section yields: the node records in depth-first pre-order up
/// to the first failure, and whether the walk ends cleanly (true) or with a
/// parse error (false).
pub uninterp spec fn unit_nodes(
    info: Seq<u8>,
    little: bool,
    k: int,
    abbrev: Seq<u8>,
    ale: bool,
) -> (Seq<NodeDesc>, bool);

/// The whole traversal of these sections succeeds: every unit header parses
/// and iteration ends cleanly, and every unit's abbreviations parse and its
/// walk ends cleanly.
pub open spec fn sections_decode(info: Seq<u8>, abbrev: Seq<u8>, little: bool) -> bool {
    decode_heads(info, little).1 && (forall|k: int|
        0 <= k < decode_heads(info, little).0 ==> (#[trigger] unit_abbrevs_ok(
            info,
            little,
            k,
            abbrev,
            little,
        )) && unit_nodes(info, little, k, abbrev, little).1)
}

/// The units the traversal of these sections collects, in order: per unit
/// its offset, its version, and its nodes.
pub open spec fn units_of(info: Seq<u8>, abbrev: Seq<u8>, little: bool) -> Seq<UnitDesc> {
    Seq::new(
        decode_heads(info, little).0,
        |k: int|
            (
                head_meta(info, little, k).0,
                head_meta(info, little, k).1,
                unit_nodes(info, little, k, abbrev, little).0,
            ),
    )
}

/// The whole dump of a container succeeds: it parses, both debug sections
/// load, and their traversal succeeds.
pub open spec fn object_decodes(data: Seq<u8>) -> bool {
    object_parses(data) && object_section_ok(data, ".debug_info"@) && object_section_ok(
        data,
        ".debug_abbrev"@,
    ) && sections_decode(
        object_section(data, ".debug_info"@),
        object_section(data, ".debug_abbrev"@),
        object_is_le(data),
    )
}

/// The units a container's dump collects.
pub open spec fn object_units(data: Seq<u8>) -> Seq<UnitDesc> {
    units_of(
        object_section(data, ".debug_info"@),
        object_section(data, ".debug_abbrev"@),
        object_is_le(data),
    )
}

/// Relies on object::File::parse: it recognizes and parses a container
/// format from the bytes alone, and returns an error otherwise; the parsed
/// file reads from exactly those bytes.
#[verifier::external_body]
fn parse_object<'d>(data: &'d [u8]) -> (r: Result<ParsedObject<'d>, object::read::Error>)
    ensures
        r is Ok <==> object_parses(data@),
        r matches Ok(f) ==> object_source(f) == data@,
{
    match object::File::parse(data) {
        Ok(file) => Ok(ParsedObject { file }),
        Err(e) => Err(e),
    }
}

/// Relies on object::Object::is_little_endian, the byte order of the parsed
/// container, a function of the container bytes.
#[verifier::external_body]
fn file_is_little_endian(f: &ParsedObject<'_>) -> (r: bool)
    ensures
        r == object_is_le(object_source(*f)),
{
    f.file.is_little_endian()
}

/// Relies on object::Object::section_by_name and
/// object::ObjectSection::uncompressed_data: the named section's bytes,
/// decompressed when stored compressed, or empty when the section is absent.
/// A present section whose data cannot be read or decompressed is an error.
#[verifier::external_body]
fn section_bytes(f: &ParsedObject<'_>, name: &str) -> (r: Result<Vec<u8>, object::read::Error>)
    ensures
        r is Ok <==> object_section_ok(object_source(*f), name@),
        r matches Ok(b) ==> b@ == object_section(object_source(*f), name@),
{
    match f.file.section_by_name(name) {
        Some(s) => match s.uncompressed_data() {
            Ok(data) => Ok(data.into_owned()),
            Err(e) => Err(e),
        },
        None => Ok(Vec::new()),
    }
}

/// Relies on gimli::read::DebugInfo::new: it wraps the section bytes with
/// the given byte order.
#[verifier::external_body]
fn info_section_new<'i>(info: &'i [u8], little: bool) -> (r: InfoSection<'i>)
    ensures
        section_state(r) == (info@, little),
{
    let endian = if little { gimli::RunTimeEndian::Little } else { gimli::RunTimeEndian::Big };
    InfoSection { inner: gimli::read::DebugInfo::new(info, endian) }
}

/// Relies on gimli::read::DebugAbbrev::new: it wraps the section bytes with
/// the given byte order.
#[verifier::external_body]
fn abbrev_section_new<'i>(abbrev: &'i [u8], little: bool) -> (r: AbbrevSection<'i>)
    ensures
        abbrev_state(r) == (abbrev@, little),
{
    let endian = if little { gimli::RunTimeEndian::Little } else { gimli::RunTimeEndian::Big };
    AbbrevSection { inner: gimli::read::DebugAbbrev::new(abbrev, endian) }
}

/// Relies on gimli::read::DebugInfo::units: a fresh iterator over the
/// section's compilation-unit headers.
#[verifier::external_body]
fn units_iter<'i>(di: &InfoSection<'i>) -> (r: UnitsIter<'i>)
    ensures
        iter_source(r) == (section_state(*di).0, section_state(*di).1, 0int),
{
    UnitsIter { inner: di.inner.units() }
}

/// Relies on gimli::read::DebugInfoUnitHeadersIter::next: iteration is a
/// deterministic parse of the section bytes, so while headers remain it
/// yields the next one and advances, and at the end it reports exhaustion or
/// the parse error.
#[verifier::external_body]
fn units_next<'i>(it: &mut UnitsIter<'i>) -> (r: Result<Option<UnitHead<'i>>, gimli::read::Error>)
    ensures
        ({
            let s = iter_source(*old(it));
            let d = decode_heads(s.0, s.1);
            &&& ((r matches Ok(Some(_))) <==> s.2 < d.0)
            &&& ((r matches Ok(None)) <==> (s.2 >= d.0 && d.1))
            &&& (r matches Ok(Some(h)) ==> head_source(h) == (s.0, s.1, s.2) && iter_source(
                *final(it),
            ) == (s.0, s.1, s.2 + 1))
        }),
{
    match it.inner.next() {
        Ok(Some(inner)) => Ok(Some(UnitHead { inner })),
        Ok(None) => Ok(None),
        Err(e) => Err(e),
    }
}

/// Relies on gimli::read::UnitHeader::version.
#[verifier::external_body]
fn unit_version(h: &UnitHead<'_>) -> (r: u16)
    ensures
        r == head_meta(head_source(*h).0, head_source(*h).1, head_source(*h).2).1,
{
    h.inner.version()
}

/// Relies on gimli::read::UnitHeader::offset: a header read from the
/// debug-information section carries its offset within that section.
#[verifier::external_body]
fn unit_offset(h: &UnitHead<'_>) -> (r: u64)
    ensures
        r == head_meta(head_source(*h).0, head_source(*h).1, head_source(*h).2).0,
{
    match h.inner.offset().as_debug_info_offset() {
        Some(o) => o.0 as u64,
        None => 0,
    }
}

/// Relies on gimli::read::UnitHeader::abbreviations: it parses the unit's
/// abbreviations from the abbreviation section, deterministically.
#[verifier::external_body]
fn unit_abbrevs<'i>(h: &UnitHead<'i>, da: &AbbrevSection<'i>) -> (r: Result<
    gimli::read::Abbreviations,
    gimli::read::Error,
>)
    ensures
        (r is Ok) <==> unit_abbrevs_ok(
            head_source(*h).0,
            head_source(*h).1,
            head_source(*h).2,
            abbrev_state(*da).0,
            abbrev_state(*da).1,
        ),
        r matches Ok(a) ==> abbrevs_source(a) == (
            head_source(*h).0,
            head_source(*h).1,
            head_source(*h).2,
            abbrev_state(*da).0,
            abbrev_state(*da).1,
        ),
{
    h.inner.abbreviations(&da.inner)
}

/// Relies on gimli::read::UnitHeader::entries: a fresh cursor over the
/// unit's debugging information entries.
#[verifier::external_body]
fn unit_cursor<'abbrev, 'unit, 'i>(
    h: &'unit UnitHead<'i>,
    ab: &'abbrev gimli::read::Abbreviations,
) -> (r: EntriesWalk<'abbrev, 'unit, 'i>)
    ensures
        head_source(*h) == (abbrevs_source(*ab).0, abbrevs_source(*ab).1, abbrevs_source(*ab).2)
            ==> cursor_source(r) == (
            abbrevs_source(*ab).0,
            abbrevs_source(*ab).1,
            abbrevs_source(*ab).2,
            abbrevs_source(*ab).3,
            abbrevs_source(*ab).4,
            0int,
        ),
{
    EntriesWalk { inner: h.inner.entries(ab) }
}

/// Relies on gimli::read::EntriesCursor::next_dfs for the delta-depth and
/// the entry, and on DebuggingInformationEntry::offset and ::tag for the
/// record's other fields: the walk is a deterministic parse of the unit's
/// entries, so while records remain it yields the next one and advances, and
/// at the end it reports exhaustion or the parse error.
#[verifier::external_body]
fn cursor_next(c: &mut EntriesWalk<'_, '_, '_>) -> (r: Result<
    Option<NodeInfo>,
    gimli::read::Error,
>)
    ensures
        ({
            let cs = cursor_source(*old(c));
            let w = unit_nodes(cs.0, cs.1, cs.2, cs.3, cs.4);
            &&& ((r matches Ok(Some(_))) <==> cs.5 < w.0.len())
            &&& ((r matches Ok(None)) <==> (cs.5 >= w.0.len() && w.1))
            &&& (r matches Ok(Some(n)) ==> node_desc(n) == w.0[cs.5] && cursor_source(*final(c))
                == (cs.0, cs.1, cs.2, cs.3, cs.4, cs.5 + 1))
        }),
{
    match c.inner.next_dfs() {
        Err(e) => Err(e),
        Ok(None) => Ok(None),
        Ok(Some((delta, entry))) => Ok(Some(
            NodeInfo {
                delta: delta as i64,
                offset: entry.offset().0 as u64,
                tag: format!("{}", entry.tag()),
            },
        )),
    }
}

/// Walk every compilation unit found in the given debug-information and
/// abbreviation section bytes, and report, per unit, its offset, version and
/// nodes in depth-first pre-order — exactly the units the sections decode
/// to. The first decoding failure aborts the whole traversal.
pub fn collect_sections(info: &[u8], abbrev: &[u8], little: bool) -> (r: Result<
    Vec<UnitData>,
    DumpError,
>)
    ensures
        (r is Ok) <==> sections_decode(info@, abbrev@, little),
        r matches Ok(us) ==> units_info_of(us@) == units_of(info@, abbrev@, little),
        r matches Err(e) ==> e == DumpError::MalformedDebugInfo,
{
    let ghost total = decode_heads(info@, little).0;
    let di = info_section_new(info, little);
    let da = abbrev_section_new(abbrev, little);
    let mut it = units_iter(&di);
    let mut units: Vec<UnitData> = Vec::new();
    proof {
        assert(units_info_of(units@) =~= units_of(info@, abbrev@, little).take(0));
    }
    loop
        invariant
            abbrev_state(da) == (abbrev@, little),
            iter_source(it) == (info@, little, units@.len() as int),
            units@.len() <= total,
            total == decode_heads(info@, little).0,
            units_info_of(units@) == units_of(info@, abbrev@, little).take(units@.len() as int),
            forall|j: int|
                0 <= j < units@.len() ==> (#[trigger] unit_abbrevs_ok(
                    info@,
                    little,
                    j,
                    abbrev@,
                    little,
                )) && unit_nodes(info@, little, j, abbrev@, little).1,
        decreases total - units@.len(),
    {
        let ghost k = units@.len() as int;
        let h = match units_next(&mut it) {
            Err(_) => {
                proof {
                    assert(!decode_heads(info@, little).1);
                }
                return Err(DumpError::MalformedDebugInfo);
            },
            Ok(None) => {
                proof {
                    assert(units@.len() == total);
                    assert(sections_decode(info@, abbrev@, little)) by {
                        assert(decode_heads(info@, little).1);
                        assert forall|j: int|
                            0 <= j < decode_heads(info@, little).0 implies (
                        #[trigger] unit_abbrevs_ok(info@, little, j, abbrev@, little))
                            && unit_nodes(info@, little, j, abbrev@, little).1 by {
                            assert(0 <= j < units@.len());
                        }
                    };
                    assert(units_of(info@, abbrev@, little).take(total as int) =~= units_of(
                        info@,
                        abbrev@,
                        little,
                    ));
                }
                return Ok(units);
            },
            Ok(Some(h)) => h,
        };
        let ab = match unit_abbrevs(&h, &da) {
            Ok(a) => a,
            Err(_) => {
                proof {
                    assert(!unit_abbrevs_ok(info@, little, k, abbrev@, little));
                    assert(0 <= k < decode_heads(info@, little).0);
                    assert(!sections_decode(info@, abbrev@, little));
                }
                return Err(DumpError::MalformedDebugInfo);
            },
        };
        let ghost w = unit_nodes(info@, little, k, abbrev@, little);
        let mut nodes: Vec<NodeInfo> = Vec::new();
        let mut cur = unit_cursor(&h, &ab);
        proof {
            assert(node_descs(nodes@) =~= w.0.take(0));
        }
        loop
            invariant_except_break
                cursor_source(cur) == (info@, little, k, abbrev@, little, nodes@.len() as int),
            invariant
                w == unit_nodes(info@, little, k, abbrev@, little),
                0 <= k < decode_heads(info@, little).0,
                unit_abbrevs_ok(info@, little, k, abbrev@, little),
                nodes@.len() <= w.0.len(),
                node_descs(nodes@) == w.0.take(nodes@.len() as int),
            ensures
                nodes@.len() == w.0.len(),
                w.1,
            decreases w.0.len() - nodes@.len(),
        {
            match cursor_next(&mut cur) {
                Err(_) => {
                    proof {
                        assert(!unit_nodes(info@, little, k, abbrev@, little).1);
                        assert(!sections_decode(info@, abbrev@, little));
                    }
                    return Err(DumpError::MalformedDebugInfo);
                },
                Ok(None) => {
                    break;
                },
                Ok(Some(n)) => {
                    let ghost prev_nodes = nodes@;
                    nodes.push(n);
                    proof {
                        assert(node_descs(prev_nodes.push(n)) =~= node_descs(prev_nodes).push(
                            node_desc(n),
                        ));
                        assert(w.0.take(prev_nodes.len() as int + 1) =~= w.0.take(
                            prev_nodes.len() as int,
                        ).push(w.0[prev_nodes.len() as int]));
                    }
                },
            }
        }
        proof {
            assert(node_descs(nodes@) =~= w.0);
        }
        let off = unit_offset(&h);
        let ver = unit_version(&h);
        let ghost prev_units = units@;
        units.push(UnitData { offset: off, version: ver, nodes });
        proof {
            let u = units@.last();
            assert(units_info_of(prev_units.push(u)) =~= units_info_of(prev_units).push(
                crate::records::unit_info(u),
            ));
            assert(crate::records::unit_info(u) == units_of(info@, abbrev@, little)[k]);
            assert(units_of(info@, abbrev@, little).take(k + 1) =~= units_of(
                info@,
                abbrev@,
                little,
            ).take(k).push(units_of(info@, abbrev@, little)[k]));
        }
    }
}

/// Parse the container, load its debug-information and abbreviation
/// sections, and walk every compilation unit. Each failure is fatal and
/// reported as its own error: bytes no container format recognizes, a debug
/// section whose data cannot be read, or debug information that does not
/// decode.
pub fn collect_object(data: &[u8]) -> (r: Result<Vec<UnitData>, DumpError>)
    ensures
        (!object_parses(data@)) <==> (r matches Err(e) && e == DumpError::UnrecognizedContainer),
        (r matches Err(e) && e == DumpError::UnreadableSection) <==> (object_parses(data@) && !(
        object_section_ok(data@, ".debug_info"@) && object_section_ok(data@, ".debug_abbrev"@))),
        (r is Ok) <==> object_decodes(data@),
        r matches Ok(us) ==> units_info_of(us@) == object_units(data@),
{
    let file = match parse_object(data) {
        Ok(f) => f,
        Err(_) => {
            return Err(DumpError::UnrecognizedContainer);
        },
    };
    let little = file_is_little_endian(&file);
    let info = match section_bytes(&file, ".debug_info") {
        Ok(b) => b,
        Err(_) => {
            return Err(DumpError::UnreadableSection);
        },
    };
    let abbrev = match section_bytes(&file, ".debug_abbrev") {
        Ok(b) => b,
        Err(_) => {
            return Err(DumpError::UnreadableSection);
        },
    };
    match collect_sections(info.as_slice(), abbrev.as_slice(), little) {
        Ok(us) => Ok(us),
        Err(_) => Err(DumpError::MalformedDebugInfo),
    }
}

/// The result of a successful dump: the units visited, and the artifact the
/// walker rendered for them.
pub struct Dump {
    pub units: Vec<UnitData>,
    pub artifact: Vec<u8>,
}

/// Dump one object file's debug-information tree: walk every compilation
/// unit and render the depth-delta artifact. The units are exactly what the
/// container's debug sections decode to, and the artifact is pinned to them:
/// a separator line per unit, then per node one line with its delta-depth
/// and the accumulated absolute depth.
pub fn dump_object(data: &[u8]) -> (r: Result<Dump, DumpError>)
    ensures
        (!object_parses(data@)) <==> (r matches Err(e) && e == DumpError::UnrecognizedContainer),
        (r matches Err(e) && e == DumpError::UnreadableSection) <==> (object_parses(data@) && !(
        object_section_ok(data@, ".debug_info"@) && object_section_ok(data@, ".debug_abbrev"@))),
        (r is Ok) <==> object_decodes(data@),
        r matches Ok(d) ==> units_info_of(d.units@) == object_units(data@) && d.artifact@
            == spec_dump(deltas_view(d.units@)),
{
    match collect_object(data) {
        Ok(units) => {
            let artifact = render_dump(&units);
            Ok(Dump { units, artifact })
        },
        Err(e) => Err(e),
    }
}

} // verus!
