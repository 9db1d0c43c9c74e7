//! Resolution of an object's declared type into a structured layout.
//!
//! The resolver itself is backed by a transient virtual-machine session over
//! the object store; the harness depends only on its one-operation contract.
//! The classification of a session's outcome — a structured record is
//! returned, anything else is the single typed failure condition carrying the
//! offending type's description — is the harness's own logic.
use vstd::prelude::*;

use crate::effects::ObjectInfo;
use crate::errors::HarnessError;

verus! {

/// Options for layout resolution: whether field types are spelled out in the
/// returned layout.
pub struct ObjectFormatOptions {
    /// Annotate the layout with full type information.
    pub include_types: bool,
}

/// The structured layout of a record type: its description and its field
/// names in declaration order.
pub struct MoveStructLayout {
    /// The full description of the type.
    pub type_desc: String,
    /// The names of the record's fields.
    pub fields: Vec<String>,
}

/// What a virtual-machine session computed for a type.
pub enum MoveTypeLayout {
    /// The type is a structured record.
    Structured(MoveStructLayout),
    /// The type's layout is not a structured record.
    Unstructured,
}

/// Resolves an object's declared type into a structured layout, or fails
/// with the single layout-resolution condition.
pub trait LayoutResolver {
    /// Compute the structured layout of `object`'s declared type.
    fn get_layout(&mut self, object: &ObjectInfo, format: ObjectFormatOptions) -> Result<
        MoveStructLayout,
        HarnessError,
    >;
}

/// Classify what a session computed for the type described by `type_desc`:
/// a structured record is the result; a type that could not be loaded
/// (`None`) or whose computed layout is not a structured record fails with
/// the layout-resolution condition carrying the type's description.
pub fn classify_layout_outcome(type_desc: &String, computed: Option<MoveTypeLayout>) -> (r: Result<
    MoveStructLayout,
    HarnessError,
>)
    ensures
        match r {
            Ok(layout) => computed == Some(MoveTypeLayout::Structured(layout)),
            Err(e) => (computed is None || computed == Some(MoveTypeLayout::Unstructured))
                && match e {
                HarnessError::LayoutResolutionFailed(d) => d@ == type_desc@,
                _ => false,
            },
        },
{
    match computed {
        Some(MoveTypeLayout::Structured(layout)) => Ok(layout),
        Some(MoveTypeLayout::Unstructured) => Err(
            HarnessError::LayoutResolutionFailed(type_desc.clone()),
        ),
        None => Err(HarnessError::LayoutResolutionFailed(type_desc.clone())),
    }
}

} // verus!
