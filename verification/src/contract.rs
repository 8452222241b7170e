//! The codec contracts: data structures that describe, per variant, how a
//! value is put on and read off the wire. A host can interpret a contract
//! directly at runtime or lower it ahead of time into emitted code.

use vstd::prelude::*;

use crate::expr::DiscExpr;
use crate::schema::ShapeModel;

verus! {

/// Where the tag slot's value comes from when a variant is encoded.
#[derive(Debug, PartialEq, Eq)]
pub enum TagSource {
    /// The variant's resolved discriminant expression, evaluated and cast
    /// to an unsigned 32-bit integer at encode time.
    Resolved(DiscExpr),
    /// The runtime value of the variant's single field, cast to an unsigned
    /// 32-bit integer: the default arm's stored raw tag becomes the wire
    /// tag itself.
    RawField,
}

/// What occupies the payload slot.
#[derive(Debug, Clone, Copy, PartialEq, Eq, Structural)]
pub enum PayloadPlan {
    /// The explicit zero-length marker.
    Marker,
    /// An ordered tuple of the given number of field values, in field
    /// declaration order.
    FieldTuple(usize),
}

/// The payload plan a field shape calls for: the zero-length marker for a
/// unit shape, otherwise an ordered tuple of the declared fields.
pub open spec fn spec_payload_plan(shape: ShapeModel) -> PayloadPlan {
    match shape {
        ShapeModel::Unit => PayloadPlan::Marker,
        _ => PayloadPlan::FieldTuple(shape.arity() as usize),
    }
}

/// How one variant is encoded: what fills the tag slot and what fills the
/// payload slot.
#[derive(Debug, PartialEq, Eq)]
pub struct EncodeArm {
    pub tag: TagSource,
    pub payload: PayloadPlan,
}

/// The encode contract: one arm per variant, in declaration order.
#[derive(Debug, PartialEq, Eq)]
pub struct EncodeContract {
    pub arms: Vec<EncodeArm>,
}

/// One dispatch branch of the decode contract: if the tag equals the
/// branch's evaluated discriminant, the payload is read by the branch's
/// plan and the variant at `variant_index` is constructed.
#[derive(Debug, PartialEq, Eq)]
pub struct DecodeBranch {
    /// The resolved discriminant the tag is compared against.
    pub disc: DiscExpr,
    /// The index of the variant, in the schema's declaration order.
    pub variant_index: usize,
    /// How the payload slot is read when this branch matches.
    pub payload: PayloadPlan,
}

/// The decode contract: the normal variants' dispatch branches in
/// declaration order, and the default arm's variant index, if one exists.
#[derive(Debug, PartialEq, Eq)]
pub struct DecodeContract {
    pub branches: Vec<DecodeBranch>,
    pub fallback: Option<usize>,
}

} // verus!
