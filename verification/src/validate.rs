//! Schema validation, run before discriminant resolution.
//!
//! The variants are scanned once in declaration order. At each variant
//! marked as the default arm: if a default arm was already seen, the schema
//! is rejected with [`SchemaError::AtMostOneDefaultArm`]; otherwise, if the
//! variant's shape is not positional with exactly one field, it is rejected
//! with [`SchemaError::DefaultArmShape`].

use vstd::prelude::*;

use crate::schema::{DiscriminantSpec, EnumSchema, SchemaError, VariantModel};

verus! {

/// The verdict of the scan over `vs`, having already `seen_default` arms
/// before it.
pub open spec fn spec_validate_from(vs: Seq<VariantModel>, seen_default: bool) -> Result<
    (),
    SchemaError,
>
    decreases vs.len(),
{
    if vs.len() == 0 {
        Ok(())
    } else if vs[0].disc is DefaultArm {
        if seen_default {
            Err(SchemaError::AtMostOneDefaultArm)
        } else if !vs[0].shape.is_positional_one() {
            Err(SchemaError::DefaultArmShape)
        } else {
            spec_validate_from(vs.drop_first(), true)
        }
    } else {
        spec_validate_from(vs.drop_first(), seen_default)
    }
}

/// The verdict of the validator on the variant list `vs`.
pub open spec fn spec_validate(vs: Seq<VariantModel>) -> Result<(), SchemaError> {
    spec_validate_from(vs, false)
}

/// Whether `vs` has at most one default arm and every default arm is
/// positional with exactly one field: the condition under which validation
/// succeeds.
pub open spec fn valid_schema(vs: Seq<VariantModel>) -> bool {
    &&& forall|i: int, j: int|
        0 <= i < j < vs.len() && vs[i].disc is DefaultArm ==> !(vs[j].disc is DefaultArm)
    &&& forall|i: int|
        0 <= i < vs.len() && vs[i].disc is DefaultArm ==> #[trigger] vs[i].shape.is_positional_one()
}

proof fn lemma_validate_from_ok_iff(vs: Seq<VariantModel>, seen_default: bool)
    ensures
        spec_validate_from(vs, seen_default) is Ok <==> {
            &&& valid_schema(vs)
            &&& seen_default ==> forall|i: int| 0 <= i < vs.len() ==> !(#[trigger] vs[i].disc is DefaultArm)
        },
    decreases vs.len(),
{
    if vs.len() > 0 {
        if vs[0].disc is DefaultArm {
            if !seen_default && vs[0].shape.is_positional_one() {
                lemma_validate_from_ok_iff(vs.drop_first(), true);
            }
        } else {
            lemma_validate_from_ok_iff(vs.drop_first(), seen_default);
        }
        assert(forall|i: int| 1 <= i < vs.len() ==> vs.drop_first()[i - 1] == #[trigger] vs[i]);
    }
}

/// Validation succeeds exactly on the schemas in which at most one variant
/// is a default arm and every default arm has exactly one positional field.
pub proof fn lemma_validate_ok_iff(vs: Seq<VariantModel>)
    ensures
        spec_validate(vs) is Ok <==> valid_schema(vs),
{
    lemma_validate_from_ok_iff(vs, false);
}

/// Checks the schema-level constraints of `schema`, before resolution.
///
/// Returns `Ok(())` exactly when at most one variant is marked as the
/// default arm and every default arm has exactly one positional field;
/// otherwise the error of the first violation in declaration order.
pub fn validate(schema: &EnumSchema) -> (r: Result<(), SchemaError>)
    ensures
        r == spec_validate(schema@.variants),
        r is Ok <==> valid_schema(schema@.variants),
{
    proof {
        lemma_validate_ok_iff(schema@.variants);
    }
    let ghost all = schema@.variants;
    proof {
        assert(all.skip(0) =~= all);
    }
    let n = schema.variants.len();
    let mut seen_default = false;
    let mut i: usize = 0;
    while i < n
        invariant
            n == schema.variants.len(),
            all == schema@.variants,
            i <= n,
            spec_validate(all) == spec_validate_from(all.skip(i as int), seen_default),
        decreases n - i,
    {
        proof {
            lemma_validate_ok_iff(all);
            assert(all[i as int] == schema.variants[i as int]@);
            assert(all.skip(i as int)[0] == all[i as int]);
            assert(all.skip(i as int).drop_first() =~= all.skip(i + 1));
        }
        match schema.variants[i].disc {
            DiscriminantSpec::DefaultArm => {
                proof {
                    assert(all.skip(i as int)[0].disc is DefaultArm);
                }
                if seen_default {
                    proof {
                        assert(spec_validate_from(all.skip(i as int), true) == Err::<
                            (),
                            SchemaError,
                        >(SchemaError::AtMostOneDefaultArm));
                    }
                    return Err(SchemaError::AtMostOneDefaultArm);
                }
                if !schema.variants[i].shape.is_positional_one() {
                    proof {
                        assert(!all.skip(i as int)[0].shape.is_positional_one());
                        assert(spec_validate_from(all.skip(i as int), false) == Err::<
                            (),
                            SchemaError,
                        >(SchemaError::DefaultArmShape));
                    }
                    return Err(SchemaError::DefaultArmShape);
                }
                seen_default = true;
            },
            _ => {},
        }
        i = i + 1;
    }
    proof {
        assert(all.skip(n as int) =~= Seq::<VariantModel>::empty());
    }
    Ok(())
}

} // verus!
