//! Depth dump of DWARF debug-information trees.
//!
//! The library walks the debugging entries of each compilation unit of an
//! object file in depth-first order, accumulates the depth deltas reported by
//! the cursor into absolute depths, and renders one text record per entry,
//! with a separator line per unit. Decoding the object container and the
//! DWARF sections is delegated to outside crates behind trusted wrappers; the
//! traversal, the depth arithmetic and the rendering are verified.
//!
//! Only each entry's depth delta, offset and tag are read: attribute values
//! (names, strings, location expressions, unit references) are not decoded,
//! and only the debug-information and abbreviation sections are loaded.

pub mod dwarf;
pub mod records;
pub mod walker;
