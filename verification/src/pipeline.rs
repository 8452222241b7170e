//! The one-shot compilation pipeline: validate, resolve, then derive both
//! codec contracts. Each stage is a pure transformation; none mutates its
//! input, and nothing is persisted between runs.

use vstd::prelude::*;

use crate::contract::{DecodeContract, EncodeContract};
use crate::decode::{build_decode_contract, spec_branches, spec_fallback};
use crate::encode::{build_encode_contract, spec_encode_arms};
use crate::resolve::{resolve, spec_resolved_models};
use crate::schema::{EnumSchema, SchemaError};
use crate::validate::{spec_validate, valid_schema, validate};

verus! {

/// The deliverable of the pipeline: the symmetric pair of codec contracts
/// derived from one schema.
#[derive(Debug, PartialEq, Eq)]
pub struct Codec {
    pub encode: EncodeContract,
    pub decode: DecodeContract,
}

/// Compiles `schema` into its codec contracts.
///
/// Fails with the validator's verdict exactly when the schema breaks a
/// schema-level constraint; otherwise returns the encode arms, dispatch
/// branches and fallback derived from the schema's resolved variants.
pub fn compile(schema: &EnumSchema) -> (r: Result<Codec, SchemaError>)
    ensures
        r is Ok <==> valid_schema(schema@.variants),
        r is Err ==> Err::<(), SchemaError>(r->Err_0) == spec_validate(schema@.variants),
        r is Ok ==> r->Ok_0.encode.arms@ == spec_encode_arms(
            spec_resolved_models(schema@.variants),
        ),
        r is Ok ==> r->Ok_0.decode.branches@ == spec_branches(
            spec_resolved_models(schema@.variants),
        ),
        r is Ok ==> r->Ok_0.decode.fallback == spec_fallback(
            spec_resolved_models(schema@.variants),
        ),
{
    match validate(schema) {
        Err(e) => Err(e),
        Ok(()) => {
            let resolved = resolve(schema);
            let encode = build_encode_contract(&resolved);
            let decode = build_decode_contract(&resolved);
            Ok(Codec { encode, decode })
        },
    }
}

} // verus!
