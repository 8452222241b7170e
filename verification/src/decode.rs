//! The decode side: deriving the tag-dispatch decode contract from
//! resolved variants, and realizing it against a wire container.
//!
//! The procedure reads slot 0 as an unsigned 32-bit tag, then tries the
//! normal variants' branches in declaration order: the first branch whose
//! evaluated discriminant equals the tag wins, its payload plan reads slot
//! 1, and the branch's variant is constructed. If no branch matches and a
//! default arm exists, slot 1 is read as the zero-length marker and the
//! default variant is constructed with its single field set to the tag.
//! With no default arm, an unmatched tag is the recoverable
//! `UnknownDiscriminant` failure.

use vstd::prelude::*;

use crate::contract::{spec_payload_plan, DecodeBranch, DecodeContract, PayloadPlan};
use crate::expr::spec_eval;
use crate::resolve::{ResolvedModel, ResolvedVariant};
use crate::schema::{copy_u64s, slot_models, DecodeError, EnumValue, SlotModel, ValueModel, WireSlot};

verus! {

/// The dispatch branches of the normal variants of `rs`, in declaration
/// order, where `rs` begins at variant index `start`.
pub open spec fn spec_branches_from(rs: Seq<ResolvedModel>, start: nat) -> Seq<DecodeBranch>
    decreases rs.len(),
{
    if rs.len() == 0 {
        Seq::empty()
    } else {
        let rest = spec_branches_from(rs.drop_first(), start + 1);
        match rs[0].resolved {
            Some(e) => seq![
                DecodeBranch {
                    disc: e,
                    variant_index: start as usize,
                    payload: spec_payload_plan(rs[0].shape),
                },
            ] + rest,
            None => rest,
        }
    }
}

/// The dispatch branches of the normal variants of `rs`.
pub open spec fn spec_branches(rs: Seq<ResolvedModel>) -> Seq<DecodeBranch> {
    spec_branches_from(rs, 0)
}

/// The variant index of the first default arm of `rs`, where `rs` begins
/// at variant index `start`.
pub open spec fn spec_fallback_from(rs: Seq<ResolvedModel>, start: nat) -> Option<usize>
    decreases rs.len(),
{
    if rs.len() == 0 {
        None
    } else if rs[0].resolved is None {
        Some(start as usize)
    } else {
        spec_fallback_from(rs.drop_first(), start + 1)
    }
}

/// The variant index of the first default arm of `rs`, if one exists.
pub open spec fn spec_fallback(rs: Seq<ResolvedModel>) -> Option<usize> {
    spec_fallback_from(rs, 0)
}

proof fn lemma_branches_from_snoc(rs: Seq<ResolvedModel>, r: ResolvedModel, start: nat)
    ensures
        spec_branches_from(rs.push(r), start) == spec_branches_from(rs, start) + (match r.resolved {
            Some(e) => seq![
                DecodeBranch {
                    disc: e,
                    variant_index: (start + rs.len()) as usize,
                    payload: spec_payload_plan(r.shape),
                },
            ],
            None => Seq::<DecodeBranch>::empty(),
        }),
        spec_fallback_from(rs.push(r), start) == (if spec_fallback_from(rs, start) is Some {
            spec_fallback_from(rs, start)
        } else if r.resolved is None {
            Some((start + rs.len()) as usize)
        } else {
            None::<usize>
        }),
    decreases rs.len(),
{
    if rs.len() == 0 {
        assert(rs.push(r)[0] == r);
        assert(rs.push(r).drop_first() =~= Seq::<ResolvedModel>::empty());
        assert(spec_branches_from(rs, start) =~= Seq::<DecodeBranch>::empty());
        assert(spec_branches_from(Seq::<ResolvedModel>::empty(), start + 1)
            =~= Seq::<DecodeBranch>::empty());
        assert(spec_fallback_from(Seq::<ResolvedModel>::empty(), start + 1) is None);
        match r.resolved {
            Some(e) => {
                assert(spec_branches_from(rs.push(r), start) =~= spec_branches_from(rs, start)
                    + seq![
                    DecodeBranch {
                        disc: e,
                        variant_index: (start + rs.len()) as usize,
                        payload: spec_payload_plan(r.shape),
                    },
                ]);
            },
            None => {
                assert(spec_branches_from(rs.push(r), start) =~= spec_branches_from(rs, start)
                    + Seq::<DecodeBranch>::empty());
            },
        }
    } else {
        assert(rs.push(r)[0] == rs[0]);
        assert(rs.push(r).drop_first() =~= rs.drop_first().push(r));
        lemma_branches_from_snoc(rs.drop_first(), r, start + 1);
        assert(spec_branches_from(rs.push(r), start) =~= spec_branches_from(rs, start) + (match r
            .resolved {
            Some(e) => seq![
                DecodeBranch {
                    disc: e,
                    variant_index: (start + rs.len()) as usize,
                    payload: spec_payload_plan(r.shape),
                },
            ],
            None => Seq::<DecodeBranch>::empty(),
        }));
    }
}

/// Derives the decode contract from the resolved variants: the normal
/// variants' branches in declaration order, each carrying its variant's
/// index, discriminant expression and payload plan, and the default arm's
/// variant index if one exists.
pub fn build_decode_contract(resolved: &Vec<ResolvedVariant>) -> (r: DecodeContract)
    ensures
        r.branches@ == spec_branches(resolved@.map_values(|rv: ResolvedVariant| rv@)),
        r.fallback == spec_fallback(resolved@.map_values(|rv: ResolvedVariant| rv@)),
{
    let ghost models = resolved@.map_values(|rv: ResolvedVariant| rv@);
    let mut branches: Vec<DecodeBranch> = Vec::new();
    let mut fallback: Option<usize> = None;
    let mut i: usize = 0;
    proof {
        assert(models.take(0) =~= Seq::<ResolvedModel>::empty());
    }
    while i < resolved.len()
        invariant
            models == resolved@.map_values(|rv: ResolvedVariant| rv@),
            i <= resolved@.len(),
            branches@ == spec_branches_from(models.take(i as int), 0),
            fallback == spec_fallback_from(models.take(i as int), 0),
        decreases resolved@.len() - i,
    {
        proof {
            assert(models[i as int] == resolved@[i as int]@);
            assert(models.take(i as int).push(models[i as int]) =~= models.take(i + 1));
            lemma_branches_from_snoc(models.take(i as int), models[i as int], 0);
        }
        let rv = &resolved[i];
        match &rv.resolved {
            Some(e) => {
                let plan = match &rv.shape {
                    crate::schema::FieldShape::Unit => PayloadPlan::Marker,
                    _ => PayloadPlan::FieldTuple(rv.shape.arity()),
                };
                branches.push(DecodeBranch { disc: e.clone(), variant_index: i, payload: plan });
            },
            None => {
                if fallback.is_none() {
                    fallback = Some(i);
                }
            },
        }
        i = i + 1;
    }
    proof {
        assert(models.take(resolved@.len() as int) =~= models);
    }
    DecodeContract { branches, fallback }
}

/// The first branch whose discriminant evaluates to `tag` under `env`, in
/// declaration order: the first declared match wins and no further branch
/// is examined.
pub open spec fn spec_first_match(branches: Seq<DecodeBranch>, env: Seq<u32>, tag: u32) -> Option<
    DecodeBranch,
>
    decreases branches.len(),
{
    if branches.len() == 0 {
        None
    } else if spec_eval(branches[0].disc, env) == tag {
        Some(branches[0])
    } else {
        spec_first_match(branches.drop_first(), env, tag)
    }
}

/// What reading the payload slot `slot` by `plan` yields for the variant
/// at `variant_index`: the variant's field values, or the shape-mismatch
/// failure.
pub open spec fn spec_read_payload(plan: PayloadPlan, slot: SlotModel, variant_index: usize) -> Result<
    ValueModel,
    DecodeError,
> {
    match slot {
        SlotModel::UInt(_) => Err(DecodeError::PayloadShapeMismatch),
        SlotModel::Tuple(fs) => match plan {
            PayloadPlan::Marker => if fs.len() == 0 {
                Ok(ValueModel { variant_index: variant_index as int, fields: Seq::empty() })
            } else {
                Err(DecodeError::PayloadShapeMismatch)
            },
            PayloadPlan::FieldTuple(k) => if fs.len() == k {
                Ok(ValueModel { variant_index: variant_index as int, fields: fs })
            } else {
                Err(DecodeError::PayloadShapeMismatch)
            },
        },
    }
}

/// The outcome of decoding the wire container `wire` by the branches and
/// fallback of a decode contract, under the environment `env`.
pub open spec fn spec_decode(
    branches: Seq<DecodeBranch>,
    fallback: Option<usize>,
    env: Seq<u32>,
    wire: Seq<SlotModel>,
) -> Result<ValueModel, DecodeError> {
    if wire.len() == 0 {
        Err(DecodeError::TruncatedInput)
    } else {
        match wire[0] {
            SlotModel::Tuple(_) => Err(DecodeError::PayloadShapeMismatch),
            SlotModel::UInt(tag) => match spec_first_match(branches, env, tag) {
                Some(b) => if wire.len() < 2 {
                    Err(DecodeError::TruncatedInput)
                } else {
                    spec_read_payload(b.payload, wire[1], b.variant_index)
                },
                None => match fallback {
                    Some(di) => if wire.len() < 2 {
                        Err(DecodeError::TruncatedInput)
                    } else {
                        match spec_read_payload(PayloadPlan::Marker, wire[1], di) {
                            Ok(_) => Ok(
                                ValueModel { variant_index: di as int, fields: seq![tag as u64] },
                            ),
                            Err(e) => Err(e),
                        }
                    },
                    None => Err(DecodeError::UnknownDiscriminant(tag)),
                },
            },
        }
    }
}

/// The model of a decode result.
pub open spec fn result_model(r: Result<EnumValue, DecodeError>) -> Result<
    ValueModel,
    DecodeError,
> {
    match r {
        Ok(v) => Ok(v@),
        Err(e) => Err(e),
    }
}

/// Decodes the wire container `wire` by the contract `c`, evaluating
/// discriminant expressions under `env`.
///
/// The outcome is exactly [`spec_decode`]: slot 0 is read as the 32-bit
/// tag; the first branch in declaration order whose discriminant evaluates
/// to the tag reads slot 1 by its payload plan and yields its variant;
/// with no match, a present default arm yields its variant holding the tag
/// after slot 1 is read as the zero-length marker, and an absent one
/// yields `UnknownDiscriminant(tag)`. A missing slot is `TruncatedInput`;
/// a slot whose contents do not fit what is expected of it is
/// `PayloadShapeMismatch`.
#[verifier::loop_isolation(false)]
pub fn decode_value(c: &DecodeContract, env: &Vec<u32>, wire: &Vec<WireSlot>) -> (r: Result<
    EnumValue,
    DecodeError,
>)
    ensures
        result_model(r) == spec_decode(c.branches@, c.fallback, env@, slot_models(wire@)),
{
    let ghost wire_m = slot_models(wire@);
    if wire.len() == 0 {
        return Err(DecodeError::TruncatedInput);
    }
    let tag: u32;
    match &wire[0] {
        WireSlot::Tuple(_) => {
            return Err(DecodeError::PayloadShapeMismatch);
        },
        WireSlot::UInt(t) => {
            tag = *t;
        },
    }
    proof {
        assert(wire_m[0] == wire@[0]@);
    }
    let n = c.branches.len();
    let mut i: usize = 0;
    proof {
        assert(c.branches@.skip(0) =~= c.branches@);
    }
    while i < n
        invariant
            n == c.branches@.len(),
            i <= n,
            spec_first_match(c.branches@, env@, tag) == spec_first_match(
                c.branches@.skip(i as int),
                env@,
                tag,
            ),
            forall|j: int|
                0 <= j < i ==> spec_eval(#[trigger] c.branches@[j].disc, env@) != tag,
        decreases n - i,
    {
        proof {
            assert(c.branches@.skip(i as int)[0] == c.branches@[i as int]);
            assert(c.branches@.skip(i as int).drop_first() =~= c.branches@.skip(i + 1));
        }
        let b = &c.branches[i];
        if b.disc.eval(env) == tag {
            if wire.len() < 2 {
                return Err(DecodeError::TruncatedInput);
            }
            proof {
                assert(wire_m[1] == wire@[1]@);
            }
            match &wire[1] {
                WireSlot::UInt(_) => {
                    return Err(DecodeError::PayloadShapeMismatch);
                },
                WireSlot::Tuple(fs) => match &b.payload {
                    PayloadPlan::Marker => {
                        if fs.len() == 0 {
                            return Ok(EnumValue { variant_index: b.variant_index, fields: Vec::new() });
                        }
                        return Err(DecodeError::PayloadShapeMismatch);
                    },
                    PayloadPlan::FieldTuple(k) => {
                        if fs.len() == *k {
                            return Ok(
                                EnumValue { variant_index: b.variant_index, fields: copy_u64s(fs) },
                            );
                        }
                        return Err(DecodeError::PayloadShapeMismatch);
                    },
                },
            }
        }
        i = i + 1;
    }
    proof {
        assert(c.branches@.skip(n as int) =~= Seq::<DecodeBranch>::empty());
    }
    match c.fallback {
        Some(di) => {
            if wire.len() < 2 {
                return Err(DecodeError::TruncatedInput);
            }
            proof {
                assert(wire_m[1] == wire@[1]@);
            }
            match &wire[1] {
                WireSlot::UInt(_) => Err(DecodeError::PayloadShapeMismatch),
                WireSlot::Tuple(fs) => {
                    if fs.len() == 0 {
                        let mut fields: Vec<u64> = Vec::new();
                        fields.push(tag as u64);
                        proof {
                            assert(fields@ =~= seq![tag as u64]);
                        }
                        Ok(EnumValue { variant_index: di, fields })
                    } else {
                        Err(DecodeError::PayloadShapeMismatch)
                    }
                },
            }
        },
        None => Err(DecodeError::UnknownDiscriminant(tag)),
    }
}

} // verus!
