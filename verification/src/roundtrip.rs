//! The symmetry of the two contracts: decoding what was encoded gives the
//! value back.
//!
//! Round-tripping holds for every constructible value of a validated
//! schema whose resolved discriminants evaluate to pairwise distinct tags
//! under the host environment, and, for a value of the default arm, whose
//! stored raw tag is claimed by no normal variant. Duplicate resolved
//! discriminants are deliberately not rejected anywhere (the first
//! declared variant wins at decode time), so a schema that evaluates two
//! variants to one tag, or a default-arm value holding a normal variant's
//! tag, decodes to the earlier claimant instead of the encoded variant.

use vstd::prelude::*;

use crate::contract::{spec_payload_plan, DecodeBranch};
use crate::decode::{
    spec_branches, spec_branches_from, spec_decode, spec_fallback, spec_fallback_from,
    spec_first_match,
};
use crate::encode::{spec_encode_arm, spec_encode_arms, spec_encode_value};
use crate::expr::spec_eval;
use crate::resolve::{lemma_resolve_none_iff_default, spec_resolved_models, ResolvedModel};
use crate::schema::{DecodeError, SlotModel, ValueModel, VariantModel};
use crate::validate::{lemma_validate_ok_iff, spec_validate, valid_schema};

verus! {

/// Whether `v` is a constructible value of the type that the resolved
/// variants `rs` describe: its variant exists, and its field values fit
/// the variant — one raw tag value within 32 bits for the default arm,
/// otherwise one value per declared field.
pub open spec fn value_wf(rs: Seq<ResolvedModel>, v: ValueModel) -> bool {
    &&& 0 <= v.variant_index < rs.len()
    &&& match rs[v.variant_index].resolved {
        None => v.fields.len() == 1 && v.fields[0] <= u32::MAX,
        Some(_) => v.fields.len() == rs[v.variant_index].shape.arity(),
    }
}

/// Whether the resolved discriminants of `rs` evaluate to pairwise
/// distinct tags under `env`.
pub open spec fn distinct_tags(rs: Seq<ResolvedModel>, env: Seq<u32>) -> bool {
    forall|i: int, j: int|
        0 <= i < j < rs.len() && (#[trigger] rs[i].resolved) is Some && (
        #[trigger] rs[j].resolved) is Some ==> spec_eval(rs[i].resolved->Some_0, env) != spec_eval(
            rs[j].resolved->Some_0,
            env,
        )
}

/// Whether no normal variant of `rs` claims `tag` under `env`.
pub open spec fn tag_unclaimed(rs: Seq<ResolvedModel>, env: Seq<u32>, tag: u32) -> bool {
    forall|i: int|
        0 <= i < rs.len() && (#[trigger] rs[i].resolved) is Some ==> spec_eval(
            rs[i].resolved->Some_0,
            env,
        ) != tag
}

proof fn lemma_first_match_hit(rs: Seq<ResolvedModel>, start: nat, env: Seq<u32>, tag: u32, vi: int)
    requires
        0 <= vi < rs.len(),
        rs[vi].resolved is Some,
        spec_eval(rs[vi].resolved->Some_0, env) == tag,
        forall|j: int|
            0 <= j < vi && (#[trigger] rs[j].resolved) is Some ==> spec_eval(
                rs[j].resolved->Some_0,
                env,
            ) != tag,
    ensures
        spec_first_match(spec_branches_from(rs, start), env, tag) == Some(
            DecodeBranch {
                disc: rs[vi].resolved->Some_0,
                variant_index: (start + vi) as usize,
                payload: spec_payload_plan(rs[vi].shape),
            },
        ),
    decreases vi,
{
    assert(forall|j: int|
        0 <= j < rs.drop_first().len() ==> rs.drop_first()[j] == #[trigger] rs[j + 1]);
    if vi == 0 {
        let b0 = DecodeBranch {
            disc: rs[0].resolved->Some_0,
            variant_index: start as usize,
            payload: spec_payload_plan(rs[0].shape),
        };
        let rest = spec_branches_from(rs.drop_first(), start + 1);
        assert(spec_branches_from(rs, start) == seq![b0] + rest);
        assert((seq![b0] + rest)[0] == b0);
        assert(spec_first_match(seq![b0] + rest, env, tag) == Some(b0));
    } else {
        lemma_first_match_hit(rs.drop_first(), start + 1, env, tag, vi - 1);
        match rs[0].resolved {
            None => {
                assert(spec_branches_from(rs, start) == spec_branches_from(
                    rs.drop_first(),
                    start + 1,
                ));
            },
            Some(e0) => {
                let b0 = DecodeBranch {
                    disc: e0,
                    variant_index: start as usize,
                    payload: spec_payload_plan(rs[0].shape),
                };
                let rest = spec_branches_from(rs.drop_first(), start + 1);
                assert(spec_branches_from(rs, start) == seq![b0] + rest);
                assert((seq![b0] + rest)[0] == b0);
                assert(spec_eval(b0.disc, env) != tag);
                assert((seq![b0] + rest).drop_first() =~= rest);
            },
        }
    }
}

proof fn lemma_first_match_miss(rs: Seq<ResolvedModel>, start: nat, env: Seq<u32>, tag: u32)
    requires
        tag_unclaimed(rs, env, tag),
    ensures
        spec_first_match(spec_branches_from(rs, start), env, tag) is None,
    decreases rs.len(),
{
    if rs.len() > 0 {
        assert(forall|j: int|
            0 <= j < rs.drop_first().len() ==> rs.drop_first()[j] == #[trigger] rs[j + 1]);
        lemma_first_match_miss(rs.drop_first(), start + 1, env, tag);
        match rs[0].resolved {
            None => {},
            Some(e0) => {
                let b0 = DecodeBranch {
                    disc: e0,
                    variant_index: start as usize,
                    payload: spec_payload_plan(rs[0].shape),
                };
                let rest = spec_branches_from(rs.drop_first(), start + 1);
                assert(spec_branches_from(rs, start) == seq![b0] + rest);
                assert((seq![b0] + rest)[0] == b0);
                assert(spec_eval(b0.disc, env) != tag);
                assert((seq![b0] + rest).drop_first() =~= rest);
            },
        }
    }
}

proof fn lemma_fallback_first(rs: Seq<ResolvedModel>, start: nat, vi: int)
    requires
        0 <= vi < rs.len(),
        rs[vi].resolved is None,
        forall|j: int| 0 <= j < vi ==> (#[trigger] rs[j].resolved) is Some,
    ensures
        spec_fallback_from(rs, start) == Some((start + vi) as usize),
    decreases vi,
{
    if vi > 0 {
        assert(forall|j: int|
            0 <= j < rs.drop_first().len() ==> rs.drop_first()[j] == #[trigger] rs[j + 1]);
        lemma_fallback_first(rs.drop_first(), start + 1, vi - 1);
    }
}

proof fn lemma_fallback_exists_from(rs: Seq<ResolvedModel>, start: nat)
    ensures
        spec_fallback_from(rs, start) is Some <==> exists|i: int|
            0 <= i < rs.len() && (#[trigger] rs[i].resolved) is None,
    decreases rs.len(),
{
    if rs.len() > 0 {
        assert(forall|j: int|
            0 <= j < rs.drop_first().len() ==> rs.drop_first()[j] == #[trigger] rs[j + 1]);
        lemma_fallback_exists_from(rs.drop_first(), start + 1);
        if !(rs[0].resolved is None) {
            if exists|i: int| 0 <= i < rs.len() && (#[trigger] rs[i].resolved) is None {
                let i = choose|i: int| 0 <= i < rs.len() && (#[trigger] rs[i].resolved) is None;
                assert(rs.drop_first()[i - 1].resolved is None);
            }
        }
    }
}

/// The decode contract falls back exactly when the schema has a default
/// arm.
pub proof fn lemma_fallback_some_iff(vs: Seq<VariantModel>)
    ensures
        spec_fallback(spec_resolved_models(vs)) is Some <==> exists|i: int|
            0 <= i < vs.len() && (#[trigger] vs[i].disc) is DefaultArm,
{
    let rs = spec_resolved_models(vs);
    lemma_fallback_exists_from(rs, 0);
    assert forall|i: int| 0 <= i < vs.len() implies ((#[trigger] rs[i].resolved) is None <==> vs[i].disc is DefaultArm) by {
        lemma_resolve_none_iff_default(vs, i);
    }
    if exists|i: int| 0 <= i < vs.len() && (#[trigger] vs[i].disc) is DefaultArm {
        let i = choose|i: int| 0 <= i < vs.len() && (#[trigger] vs[i].disc) is DefaultArm;
        assert(rs[i].resolved is None);
    }
    if exists|i: int| 0 <= i < rs.len() && (#[trigger] rs[i].resolved) is None {
        let i = choose|i: int| 0 <= i < rs.len() && (#[trigger] rs[i].resolved) is None;
        assert(vs[i].disc is DefaultArm);
    }
}

/// Fallback correctness over a schema: a well-slotted container whose tag
/// no normal variant claims decodes to the default variant holding exactly
/// that tag when the schema has a default arm, and to
/// `UnknownDiscriminant` carrying the tag when it has none.
pub proof fn lemma_fallback_schema(vs: Seq<VariantModel>, env: Seq<u32>, tag: u32)
    requires
        tag_unclaimed(spec_resolved_models(vs), env, tag),
    ensures
        spec_decode(
            spec_branches(spec_resolved_models(vs)),
            spec_fallback(spec_resolved_models(vs)),
            env,
            seq![SlotModel::UInt(tag), SlotModel::Tuple(Seq::empty())],
        ) == (match spec_fallback(spec_resolved_models(vs)) {
            Some(di) => Ok(ValueModel { variant_index: di as int, fields: seq![tag as u64] }),
            None => Err::<ValueModel, DecodeError>(DecodeError::UnknownDiscriminant(tag)),
        }),
{
    lemma_first_match_miss(spec_resolved_models(vs), 0, env, tag);
}

proof fn lemma_round_trip_resolved(rs: Seq<ResolvedModel>, env: Seq<u32>, v: ValueModel)
    requires
        rs.len() <= usize::MAX,
        value_wf(rs, v),
        rs[v.variant_index].shape.arity() <= usize::MAX,
        distinct_tags(rs, env),
        rs[v.variant_index].resolved is None ==> tag_unclaimed(rs, env, v.fields[0] as u32),
        rs[v.variant_index].resolved is None ==> forall|j: int|
            0 <= j < rs.len() && j != v.variant_index ==> (#[trigger] rs[j].resolved) is Some,
    ensures
        spec_decode(
            spec_branches(rs),
            spec_fallback(rs),
            env,
            spec_encode_value(spec_encode_arms(rs), env, v),
        ) == Ok::<ValueModel, DecodeError>(v),
{
    let vi = v.variant_index;
    let arm = spec_encode_arms(rs)[vi];
    assert(arm == spec_encode_arm(rs[vi]));
    let wire = spec_encode_value(spec_encode_arms(rs), env, v);
    match rs[vi].resolved {
        Some(e) => {
            let tag = spec_eval(e, env);
            assert(wire[0] == SlotModel::UInt(tag));
            lemma_first_match_hit(rs, 0, env, tag, vi);
            let b = DecodeBranch {
                disc: e,
                variant_index: vi as usize,
                payload: spec_payload_plan(rs[vi].shape),
            };
            assert(spec_first_match(spec_branches(rs), env, tag) == Some(b));
            match rs[vi].shape {
                crate::schema::ShapeModel::Unit => {
                    assert(wire[1] == SlotModel::Tuple(Seq::<u64>::empty()));
                    assert(v.fields =~= Seq::<u64>::empty());
                },
                _ => {
                    assert(b.payload == crate::contract::PayloadPlan::FieldTuple(
                        rs[vi].shape.arity() as usize,
                    ));
                    assert(wire[1] == SlotModel::Tuple(v.fields));
                },
            }
        },
        None => {
            let tag = v.fields[0] as u32;
            assert(wire[0] == SlotModel::UInt(tag));
            assert(wire[1] == SlotModel::Tuple(Seq::<u64>::empty()));
            lemma_first_match_miss(rs, 0, env, tag);
            lemma_fallback_first(rs, 0, vi);
            assert(spec_fallback(rs) == Some(vi as usize));
            assert(tag as u64 == v.fields[0]);
            assert(seq![tag as u64] =~= v.fields);
        },
    }
}

/// Round-trip: for every validated schema, every host environment under
/// which the resolved discriminants are pairwise distinct, and every
/// constructible value of the schema's type whose stored raw tag, if it is
/// a default-arm value, no normal variant claims, decoding the encoding of
/// the value yields the value back.
pub proof fn lemma_round_trip(vs: Seq<VariantModel>, env: Seq<u32>, v: ValueModel)
    requires
        vs.len() <= usize::MAX,
        spec_validate(vs) is Ok,
        value_wf(spec_resolved_models(vs), v),
        spec_resolved_models(vs)[v.variant_index].shape.arity() <= usize::MAX,
        distinct_tags(spec_resolved_models(vs), env),
        spec_resolved_models(vs)[v.variant_index].resolved is None ==> tag_unclaimed(
            spec_resolved_models(vs),
            env,
            v.fields[0] as u32,
        ),
    ensures
        spec_decode(
            spec_branches(spec_resolved_models(vs)),
            spec_fallback(spec_resolved_models(vs)),
            env,
            spec_encode_value(spec_encode_arms(spec_resolved_models(vs)), env, v),
        ) == Ok::<ValueModel, DecodeError>(v),
{
    let rs = spec_resolved_models(vs);
    let vi = v.variant_index;
    lemma_validate_ok_iff(vs);
    assert(valid_schema(vs));
    if rs[vi].resolved is None {
        lemma_resolve_none_iff_default(vs, vi);
        assert(vs[vi].disc is DefaultArm);
        assert forall|j: int|
            0 <= j < rs.len() && j != vi implies (#[trigger] rs[j].resolved) is Some by {
            lemma_resolve_none_iff_default(vs, j);
            assert(!(vs[j].disc is DefaultArm));
        }
    }
    lemma_round_trip_resolved(rs, env, v);
}

} // verus!
