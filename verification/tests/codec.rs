use xdr_enum_codec::contract::PayloadPlan;
use xdr_enum_codec::decode::decode_value;
use xdr_enum_codec::encode::encode_value;
use xdr_enum_codec::expr::DiscExpr;
use xdr_enum_codec::pipeline::{compile, Codec};
use xdr_enum_codec::resolve::resolve;
use xdr_enum_codec::schema::{
    DecodeError, DiscriminantSpec, EnumSchema, EnumValue, FieldShape, NamedField, SchemaError,
    TypeRef, VariantSchema, WireSlot,
};
use xdr_enum_codec::validate::validate;

fn unit_variant(name: u32, disc: DiscriminantSpec) -> VariantSchema {
    VariantSchema {
        name,
        shape: FieldShape::Unit,
        disc,
    }
}

fn positional_variant(name: u32, arity: usize, disc: DiscriminantSpec) -> VariantSchema {
    let tys: Vec<TypeRef> = (0..arity as u32).map(|id| TypeRef { id }).collect();
    VariantSchema {
        name,
        shape: FieldShape::Positional(tys),
        disc,
    }
}

fn default_arm(name: u32) -> VariantSchema {
    positional_variant(name, 1, DiscriminantSpec::DefaultArm)
}

/// The worked scenario: explicit 10, two implicit successors, a default arm.
fn scenario_schema() -> EnumSchema {
    EnumSchema {
        name: 0,
        variants: vec![
            unit_variant(1, DiscriminantSpec::Explicit(DiscExpr::Lit(10))),
            unit_variant(2, DiscriminantSpec::Implicit),
            unit_variant(3, DiscriminantSpec::Implicit),
            default_arm(4),
        ],
    }
}

fn compiled(schema: &EnumSchema) -> Codec {
    compile(schema).expect("schema should compile")
}

#[test]
fn implicit_variants_count_from_zero() {
    let schema = EnumSchema {
        name: 0,
        variants: vec![
            unit_variant(1, DiscriminantSpec::Implicit),
            unit_variant(2, DiscriminantSpec::Implicit),
            unit_variant(3, DiscriminantSpec::Implicit),
        ],
    };
    let resolved = resolve(&schema);
    let env: Vec<u32> = Vec::new();
    let tags: Vec<u32> = resolved
        .iter()
        .map(|rv| rv.resolved.as_ref().expect("normal variant").eval(&env))
        .collect();
    assert_eq!(tags, vec![0, 1, 2]);
}

#[test]
fn explicit_literal_overrides_the_sequence() {
    let schema = EnumSchema {
        name: 0,
        variants: vec![
            unit_variant(1, DiscriminantSpec::Implicit),
            unit_variant(2, DiscriminantSpec::Explicit(DiscExpr::Lit(41))),
            unit_variant(3, DiscriminantSpec::Implicit),
        ],
    };
    let resolved = resolve(&schema);
    let env: Vec<u32> = Vec::new();
    assert_eq!(resolved[0].resolved.as_ref().unwrap().eval(&env), 0);
    assert_eq!(resolved[1].resolved.as_ref().unwrap().eval(&env), 41);
    assert_eq!(resolved[2].resolved.as_ref().unwrap().eval(&env), 42);
}

#[test]
fn explicit_symbol_stays_symbolic_until_evaluation() {
    let schema = EnumSchema {
        name: 0,
        variants: vec![
            unit_variant(1, DiscriminantSpec::Explicit(DiscExpr::Sym(0))),
            unit_variant(2, DiscriminantSpec::Implicit),
        ],
    };
    let resolved = resolve(&schema);
    // The resolver composed, it did not evaluate: the second variant holds
    // the symbolic successor of the first's expression.
    assert_eq!(
        resolved[1].resolved,
        Some(DiscExpr::Succ(Box::new(DiscExpr::Sym(0))))
    );
    let env = vec![700u32];
    assert_eq!(resolved[0].resolved.as_ref().unwrap().eval(&env), 700);
    assert_eq!(resolved[1].resolved.as_ref().unwrap().eval(&env), 701);
}

#[test]
fn successor_wraps_at_the_32_bit_boundary() {
    let schema = EnumSchema {
        name: 0,
        variants: vec![
            unit_variant(1, DiscriminantSpec::Explicit(DiscExpr::Lit(u32::MAX))),
            unit_variant(2, DiscriminantSpec::Implicit),
        ],
    };
    let resolved = resolve(&schema);
    let env: Vec<u32> = Vec::new();
    assert_eq!(resolved[1].resolved.as_ref().unwrap().eval(&env), 0);
}

#[test]
fn default_arm_does_not_advance_the_counter() {
    let schema = EnumSchema {
        name: 0,
        variants: vec![
            unit_variant(1, DiscriminantSpec::Implicit),
            default_arm(2),
            unit_variant(3, DiscriminantSpec::Implicit),
        ],
    };
    let resolved = resolve(&schema);
    let env: Vec<u32> = Vec::new();
    assert_eq!(resolved[0].resolved.as_ref().unwrap().eval(&env), 0);
    assert_eq!(resolved[1].resolved, None);
    assert_eq!(resolved[2].resolved.as_ref().unwrap().eval(&env), 1);
}

#[test]
fn resolution_is_deterministic() {
    let a = resolve(&scenario_schema());
    let b = resolve(&scenario_schema());
    assert_eq!(a, b);
    let ca = compiled(&scenario_schema());
    let cb = compiled(&scenario_schema());
    assert_eq!(ca, cb);
}

#[test]
fn two_default_arms_are_rejected() {
    let schema = EnumSchema {
        name: 0,
        variants: vec![default_arm(1), default_arm(2)],
    };
    assert_eq!(validate(&schema), Err(SchemaError::AtMostOneDefaultArm));
    assert_eq!(compile(&schema), Err(SchemaError::AtMostOneDefaultArm));
}

#[test]
fn default_arm_with_no_field_is_rejected() {
    let schema = EnumSchema {
        name: 0,
        variants: vec![unit_variant(1, DiscriminantSpec::DefaultArm)],
    };
    assert_eq!(validate(&schema), Err(SchemaError::DefaultArmShape));
}

#[test]
fn default_arm_with_two_fields_is_rejected() {
    let schema = EnumSchema {
        name: 0,
        variants: vec![positional_variant(1, 2, DiscriminantSpec::DefaultArm)],
    };
    assert_eq!(validate(&schema), Err(SchemaError::DefaultArmShape));
}

#[test]
fn default_arm_with_a_named_field_is_rejected() {
    let schema = EnumSchema {
        name: 0,
        variants: vec![VariantSchema {
            name: 1,
            shape: FieldShape::Named(vec![NamedField {
                name: 7,
                ty: TypeRef { id: 0 },
            }]),
            disc: DiscriminantSpec::DefaultArm,
        }],
    };
    assert_eq!(validate(&schema), Err(SchemaError::DefaultArmShape));
}

#[test]
fn a_well_formed_schema_validates() {
    assert_eq!(validate(&scenario_schema()), Ok(()));
}

#[test]
fn scenario_resolves_to_ten_eleven_twelve() {
    let resolved = resolve(&scenario_schema());
    let env: Vec<u32> = Vec::new();
    assert_eq!(resolved[0].resolved.as_ref().unwrap().eval(&env), 10);
    assert_eq!(resolved[1].resolved.as_ref().unwrap().eval(&env), 11);
    assert_eq!(resolved[2].resolved.as_ref().unwrap().eval(&env), 12);
    assert_eq!(resolved[3].resolved, None);
}

#[test]
fn scenario_decodes_matched_tag_to_its_variant() {
    let codec = compiled(&scenario_schema());
    let env: Vec<u32> = Vec::new();
    let wire = vec![WireSlot::UInt(12), WireSlot::Tuple(vec![])];
    let value = decode_value(&codec.decode, &env, &wire).expect("tag 12 matches");
    assert_eq!(
        value,
        EnumValue {
            variant_index: 2,
            fields: vec![]
        }
    );
}

#[test]
fn scenario_decodes_unmatched_tag_to_the_default_arm() {
    let codec = compiled(&scenario_schema());
    let env: Vec<u32> = Vec::new();
    let wire = vec![WireSlot::UInt(99), WireSlot::Tuple(vec![])];
    let value = decode_value(&codec.decode, &env, &wire).expect("default arm absorbs");
    assert_eq!(
        value,
        EnumValue {
            variant_index: 3,
            fields: vec![99]
        }
    );
}

#[test]
fn scenario_encodes_default_arm_value_into_the_tag_slot() {
    let codec = compiled(&scenario_schema());
    let env: Vec<u32> = Vec::new();
    let value = EnumValue {
        variant_index: 3,
        fields: vec![7],
    };
    let wire = encode_value(&codec.encode, &env, &value);
    assert_eq!(wire, vec![WireSlot::UInt(7), WireSlot::Tuple(vec![])]);
}

#[test]
fn unit_variant_payload_is_the_zero_length_marker() {
    let codec = compiled(&scenario_schema());
    let env: Vec<u32> = Vec::new();
    let value = EnumValue {
        variant_index: 1,
        fields: vec![],
    };
    let wire = encode_value(&codec.encode, &env, &value);
    assert_eq!(wire, vec![WireSlot::UInt(11), WireSlot::Tuple(vec![])]);
}

#[test]
fn field_tuples_ride_the_payload_slot_in_order() {
    let schema = EnumSchema {
        name: 0,
        variants: vec![positional_variant(1, 3, DiscriminantSpec::Implicit)],
    };
    let codec = compiled(&schema);
    let env: Vec<u32> = Vec::new();
    let value = EnumValue {
        variant_index: 0,
        fields: vec![5, 6, 7],
    };
    let wire = encode_value(&codec.encode, &env, &value);
    assert_eq!(
        wire,
        vec![WireSlot::UInt(0), WireSlot::Tuple(vec![5, 6, 7])]
    );
}

#[test]
fn named_fields_never_reach_the_wire() {
    let named = EnumSchema {
        name: 0,
        variants: vec![VariantSchema {
            name: 1,
            shape: FieldShape::Named(vec![
                NamedField {
                    name: 10,
                    ty: TypeRef { id: 0 },
                },
                NamedField {
                    name: 11,
                    ty: TypeRef { id: 1 },
                },
            ]),
            disc: DiscriminantSpec::Implicit,
        }],
    };
    let codec = compiled(&named);
    let env: Vec<u32> = Vec::new();
    let value = EnumValue {
        variant_index: 0,
        fields: vec![8, 9],
    };
    let wire = encode_value(&codec.encode, &env, &value);
    // Only the ordered values appear, exactly as for a positional shape.
    assert_eq!(wire, vec![WireSlot::UInt(0), WireSlot::Tuple(vec![8, 9])]);
}

#[test]
fn round_trip_of_every_scenario_variant() {
    let codec = compiled(&scenario_schema());
    let env: Vec<u32> = Vec::new();
    let values = [
        EnumValue {
            variant_index: 0,
            fields: vec![],
        },
        EnumValue {
            variant_index: 1,
            fields: vec![],
        },
        EnumValue {
            variant_index: 2,
            fields: vec![],
        },
        EnumValue {
            variant_index: 3,
            fields: vec![500],
        },
    ];
    for value in values {
        let wire = encode_value(&codec.encode, &env, &value);
        let back = decode_value(&codec.decode, &env, &wire).expect("round trip");
        assert_eq!(back, value);
    }
}

#[test]
fn round_trip_of_a_field_heavy_variant() {
    let schema = EnumSchema {
        name: 0,
        variants: vec![
            positional_variant(1, 2, DiscriminantSpec::Explicit(DiscExpr::Sym(0))),
            positional_variant(2, 4, DiscriminantSpec::Implicit),
        ],
    };
    let codec = compiled(&schema);
    let env = vec![40u32];
    let value = EnumValue {
        variant_index: 1,
        fields: vec![u64::MAX, 0, 1, 2],
    };
    let wire = encode_value(&codec.encode, &env, &value);
    assert_eq!(wire[0], WireSlot::UInt(41));
    let back = decode_value(&codec.decode, &env, &wire).expect("round trip");
    assert_eq!(back, value);
}

#[test]
fn unmatched_tag_without_default_arm_is_a_typed_failure() {
    let schema = EnumSchema {
        name: 0,
        variants: vec![unit_variant(1, DiscriminantSpec::Implicit)],
    };
    let codec = compiled(&schema);
    let env: Vec<u32> = Vec::new();
    let wire = vec![WireSlot::UInt(9), WireSlot::Tuple(vec![])];
    assert_eq!(
        decode_value(&codec.decode, &env, &wire),
        Err(DecodeError::UnknownDiscriminant(9))
    );
}

#[test]
fn missing_slots_are_truncated_input() {
    let codec = compiled(&scenario_schema());
    let env: Vec<u32> = Vec::new();
    let empty: Vec<WireSlot> = vec![];
    assert_eq!(
        decode_value(&codec.decode, &env, &empty),
        Err(DecodeError::TruncatedInput)
    );
    let tag_only = vec![WireSlot::UInt(10)];
    assert_eq!(
        decode_value(&codec.decode, &env, &tag_only),
        Err(DecodeError::TruncatedInput)
    );
    let unmatched_tag_only = vec![WireSlot::UInt(99)];
    assert_eq!(
        decode_value(&codec.decode, &env, &unmatched_tag_only),
        Err(DecodeError::TruncatedInput)
    );
}

#[test]
fn ill_shaped_slots_are_a_shape_mismatch() {
    let codec = compiled(&scenario_schema());
    let env: Vec<u32> = Vec::new();
    // A tuple where the tag belongs.
    let wire = vec![WireSlot::Tuple(vec![]), WireSlot::Tuple(vec![])];
    assert_eq!(
        decode_value(&codec.decode, &env, &wire),
        Err(DecodeError::PayloadShapeMismatch)
    );
    // A bare integer where the payload belongs.
    let wire = vec![WireSlot::UInt(10), WireSlot::UInt(0)];
    assert_eq!(
        decode_value(&codec.decode, &env, &wire),
        Err(DecodeError::PayloadShapeMismatch)
    );
    // A non-empty payload under a unit variant's marker.
    let wire = vec![WireSlot::UInt(10), WireSlot::Tuple(vec![1])];
    assert_eq!(
        decode_value(&codec.decode, &env, &wire),
        Err(DecodeError::PayloadShapeMismatch)
    );
    // A non-empty payload under the default arm's marker.
    let wire = vec![WireSlot::UInt(99), WireSlot::Tuple(vec![1])];
    assert_eq!(
        decode_value(&codec.decode, &env, &wire),
        Err(DecodeError::PayloadShapeMismatch)
    );
}

#[test]
fn payload_arity_is_checked_against_the_declared_shape() {
    let schema = EnumSchema {
        name: 0,
        variants: vec![positional_variant(1, 2, DiscriminantSpec::Implicit)],
    };
    let codec = compiled(&schema);
    let env: Vec<u32> = Vec::new();
    let wire = vec![WireSlot::UInt(0), WireSlot::Tuple(vec![1])];
    assert_eq!(
        decode_value(&codec.decode, &env, &wire),
        Err(DecodeError::PayloadShapeMismatch)
    );
}

#[test]
fn first_declared_variant_wins_a_duplicate_tag() {
    let schema = EnumSchema {
        name: 0,
        variants: vec![
            unit_variant(1, DiscriminantSpec::Explicit(DiscExpr::Lit(5))),
            unit_variant(2, DiscriminantSpec::Explicit(DiscExpr::Lit(5))),
        ],
    };
    let codec = compiled(&schema);
    let env: Vec<u32> = Vec::new();
    let wire = vec![WireSlot::UInt(5), WireSlot::Tuple(vec![])];
    let value = decode_value(&codec.decode, &env, &wire).expect("tag matches");
    assert_eq!(value.variant_index, 0);
}

#[test]
fn mid_schema_default_arm_still_absorbs_and_round_trips() {
    let schema = EnumSchema {
        name: 0,
        variants: vec![
            unit_variant(1, DiscriminantSpec::Implicit),
            default_arm(2),
            unit_variant(3, DiscriminantSpec::Implicit),
        ],
    };
    let codec = compiled(&schema);
    let env: Vec<u32> = Vec::new();
    assert_eq!(codec.decode.fallback, Some(1));
    // The variant after the default arm kept the implicit sequence: tag 1.
    let wire = vec![WireSlot::UInt(1), WireSlot::Tuple(vec![])];
    let value = decode_value(&codec.decode, &env, &wire).expect("tag 1 matches");
    assert_eq!(value.variant_index, 2);
    // An unmatched tag lands in the middle default arm and comes back out.
    let absorbed = EnumValue {
        variant_index: 1,
        fields: vec![77],
    };
    let wire = encode_value(&codec.encode, &env, &absorbed);
    assert_eq!(wire, vec![WireSlot::UInt(77), WireSlot::Tuple(vec![])]);
    let back = decode_value(&codec.decode, &env, &wire).expect("absorbed");
    assert_eq!(back, absorbed);
}

#[test]
fn default_arm_branches_are_left_out_of_dispatch() {
    let codec = compiled(&scenario_schema());
    assert_eq!(codec.decode.branches.len(), 3);
    assert_eq!(codec.decode.fallback, Some(3));
    assert_eq!(codec.decode.branches[0].variant_index, 0);
    assert_eq!(codec.decode.branches[0].payload, PayloadPlan::Marker);
}
