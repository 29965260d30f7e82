//! Conversion between a text-based mesh interchange format (separately
//! indexed positions, texture coordinates and normals, with face
//! primitives referencing them by index tuples) and a binary model
//! format built around a single unified vertex list.
//!
//! The importer deduplicates and reindexes the text format's attribute
//! streams into the unified layout and assembles the model's material,
//! LOD and frame structure around them; the exporter flattens a model
//! back into the text format's line grammar. Coordinates are carried
//! as single-precision bit patterns; the caller computes the bounding
//! center from the unified positions and renders single components as
//! text, and everything the conversion decides is verified here.

use vstd::prelude::*;

pub mod exporter;
pub mod importer;
pub mod mesh;
pub mod model;

verus! {

/// The failures the conversion logic can report. Input shortcomings
/// are input errors; `Unsupported` marks a source/target format
/// pairing the converter deliberately does not implement.
#[derive(Clone, Copy, PartialEq, Eq, Structural, Debug)]
pub enum ConvertError {
    /// The object's geometry holds no triangle primitive.
    EmptyGeometry,
    /// A vertex reference points outside an attribute stream.
    AttributeIndexOutOfRange,
    /// Unified vertex or triangle counts do not fit the 32-bit
    /// indices of the binary format.
    ModelTooLarge,
    /// A triangle range or a referenced unified vertex lies outside
    /// the model's triangle or vertex lists.
    ModelOutOfBounds,
    /// The requested source/target format pairing is not implemented.
    Unsupported,
}

/// A conversion endpoint: the binary model format at some revision,
/// or the text-mesh format.
#[derive(Clone, Copy, PartialEq, Eq, Structural, Debug)]
pub enum FormatKind {
    Cem { major: u16, minor: u16 },
    Obj,
}

/// The conversion a source/target format pairing calls for.
#[derive(Clone, Copy, PartialEq, Eq, Structural, Debug)]
pub enum ConversionKind {
    /// Import a text-mesh document into a current-revision model.
    ObjToCem,
    /// Re-encode a current-revision model unchanged.
    CemRewrite,
    /// Export a model as a text-mesh document.
    CemToObj,
}

/// The pairings the converter implements: text into the current
/// binary revision, current revision re-encoded, and any binary
/// revision out to text.
pub open spec fn plan_spec(input: FormatKind, output: FormatKind) -> Option<ConversionKind> {
    match (input, output) {
        (FormatKind::Obj, FormatKind::Cem { major: 2, minor: 0 }) => Some(
            ConversionKind::ObjToCem,
        ),
        (FormatKind::Cem { major: 2, minor: 0 }, FormatKind::Cem { major: 2, minor: 0 }) => Some(
            ConversionKind::CemRewrite,
        ),
        (FormatKind::Cem { .. }, FormatKind::Obj) => Some(ConversionKind::CemToObj),
        _ => None,
    }
}

/// Decides which conversion a source/target pairing calls for, and
/// rejects a pairing the converter does not implement as its own
/// error kind rather than doing nothing.
pub fn conversion_plan(input: FormatKind, output: FormatKind) -> (r: Result<
    ConversionKind,
    ConvertError,
>)
    ensures
        match r {
            Ok(k) => plan_spec(input, output) == Some(k),
            Err(e) => plan_spec(input, output) is None && e == ConvertError::Unsupported,
        },
{
    match (input, output) {
        (FormatKind::Obj, FormatKind::Cem { major: 2, minor: 0 }) => Ok(ConversionKind::ObjToCem),
        (FormatKind::Cem { major: 2, minor: 0 }, FormatKind::Cem { major: 2, minor: 0 }) => Ok(
            ConversionKind::CemRewrite,
        ),
        (FormatKind::Cem { .. }, FormatKind::Obj) => Ok(ConversionKind::CemToObj),
        _ => Err(ConvertError::Unsupported),
    }
}

} // verus!
