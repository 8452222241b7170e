//! The encode side: deriving per-variant encode arms from resolved
//! variants, and realizing an arm against a runtime value.
//!
//! Every variant is encoded as a fixed two-slot container. For a normal
//! variant, slot 0 is the resolved discriminant expression, evaluated and
//! cast to an unsigned 32-bit integer at encode time, and slot 1 is the
//! payload: the zero-length marker for a unit shape, otherwise the ordered
//! tuple of field values in declaration order. For the default arm, slot 0
//! is the variant's single field value cast to an unsigned 32-bit integer
//! and slot 1 is the zero-length marker: the field value migrates into the
//! tag position, mirroring exactly how it was captured during decode.

use vstd::prelude::*;

use crate::contract::{spec_payload_plan, EncodeArm, EncodeContract, PayloadPlan, TagSource};
use crate::expr::spec_eval;
use crate::resolve::{ResolvedModel, ResolvedVariant};
use crate::schema::{copy_u64s, slot_models, EnumValue, SlotModel, ValueModel, WireSlot};

verus! {

/// The encode arm of one resolved variant.
pub open spec fn spec_encode_arm(rv: ResolvedModel) -> EncodeArm {
    match rv.resolved {
        Some(e) => EncodeArm { tag: TagSource::Resolved(e), payload: spec_payload_plan(rv.shape) },
        None => EncodeArm { tag: TagSource::RawField, payload: PayloadPlan::Marker },
    }
}

/// The encode arms of a resolved variant sequence, one per variant in
/// declaration order.
pub open spec fn spec_encode_arms(rs: Seq<ResolvedModel>) -> Seq<EncodeArm> {
    rs.map_values(|r: ResolvedModel| spec_encode_arm(r))
}

/// Derives the encode contract from the resolved variants: one arm per
/// variant, in declaration order, each as [`spec_encode_arm`] describes.
pub fn build_encode_contract(resolved: &Vec<ResolvedVariant>) -> (r: EncodeContract)
    ensures
        r.arms@.len() == resolved@.len(),
        forall|i: int|
            0 <= i < resolved@.len() ==> #[trigger] r.arms@[i] == spec_encode_arm(resolved@[i]@),
        r.arms@ == spec_encode_arms(resolved@.map_values(|rv: ResolvedVariant| rv@)),
{
    let mut arms: Vec<EncodeArm> = Vec::new();
    let mut i: usize = 0;
    while i < resolved.len()
        invariant
            i <= resolved@.len(),
            arms@.len() == i,
            forall|j: int|
                0 <= j < i ==> #[trigger] arms@[j] == spec_encode_arm(resolved@[j]@),
        decreases resolved@.len() - i,
    {
        let rv = &resolved[i];
        let arm = match &rv.resolved {
            Some(e) => EncodeArm {
                tag: TagSource::Resolved(e.clone()),
                payload: match &rv.shape {
                    crate::schema::FieldShape::Unit => PayloadPlan::Marker,
                    _ => PayloadPlan::FieldTuple(rv.shape.arity()),
                },
            },
            None => EncodeArm { tag: TagSource::RawField, payload: PayloadPlan::Marker },
        };
        arms.push(arm);
        i = i + 1;
    }
    proof {
        assert(arms@ =~= spec_encode_arms(resolved@.map_values(|rv: ResolvedVariant| rv@)));
    }
    EncodeContract { arms }
}

/// The wire container that encoding `v` by the arm sequence `arms` under
/// the environment `env` produces: exactly two slots, the 32-bit tag and
/// the payload.
pub open spec fn spec_encode_value(arms: Seq<EncodeArm>, env: Seq<u32>, v: ValueModel) -> Seq<
    SlotModel,
> {
    let arm = arms[v.variant_index];
    let tag = match arm.tag {
        TagSource::Resolved(e) => spec_eval(e, env),
        TagSource::RawField => v.fields[0] as u32,
    };
    let payload = match arm.payload {
        PayloadPlan::Marker => Seq::<u64>::empty(),
        PayloadPlan::FieldTuple(_) => v.fields,
    };
    seq![SlotModel::UInt(tag), SlotModel::Tuple(payload)]
}

/// Encodes `v` by its variant's arm of `c`, evaluating discriminant
/// expressions under `env`.
///
/// The result is the two-slot wire container of [`spec_encode_value`]: the
/// tag slot holds the evaluated discriminant (for the default arm, the
/// value of the variant's single field, truncated to 32 bits), and the
/// payload slot holds the ordered field tuple, or the zero-length marker
/// where the arm calls for one.
pub fn encode_value(c: &EncodeContract, env: &Vec<u32>, v: &EnumValue) -> (r: Vec<WireSlot>)
    requires
        v@.variant_index < c.arms@.len(),
        c.arms@[v@.variant_index].tag is RawField ==> v@.fields.len() >= 1,
    ensures
        slot_models(r@) == spec_encode_value(c.arms@, env@, v@),
{
    let arm = &c.arms[v.variant_index];
    let tag: u32 = match &arm.tag {
        TagSource::Resolved(e) => e.eval(env),
        TagSource::RawField => {
            #[verifier::truncate]
            (v.fields[0] as u32)
        },
    };
    let payload: Vec<u64> = match &arm.payload {
        PayloadPlan::Marker => Vec::new(),
        PayloadPlan::FieldTuple(_) => copy_u64s(&v.fields),
    };
    let mut out: Vec<WireSlot> = Vec::new();
    out.push(WireSlot::UInt(tag));
    out.push(WireSlot::Tuple(payload));
    proof {
        assert(slot_models(out@) =~= spec_encode_value(c.arms@, env@, v@));
    }
    out
}

} // verus!
