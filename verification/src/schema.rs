//! The immutable schema model of a tagged union, the runtime values of the
//! type it describes, the slots of the wire container, and the error
//! taxonomy.
//!
//! A schema is constructed once by the host and never mutated. Variant and
//! field names, and field type references, are opaque identifiers issued by
//! the host: the compiler treats them as metadata and never interprets them.

use vstd::prelude::*;

use crate::expr::DiscExpr;

verus! {

/// An opaque reference to a host type, by the index the host issued for it.
#[derive(Debug, Clone, Copy, PartialEq, Eq, Structural)]
pub struct TypeRef {
    pub id: u32,
}

/// One named field: a host name identifier and the field's type reference.
#[derive(Debug, Clone, Copy, PartialEq, Eq, Structural)]
pub struct NamedField {
    pub name: u32,
    pub ty: TypeRef,
}

/// The field shape of one variant.
#[derive(Debug, PartialEq, Eq)]
pub enum FieldShape {
    /// No fields.
    Unit,
    /// Ordered unnamed fields, each a type reference.
    Positional(Vec<TypeRef>),
    /// Ordered named fields. The names are compile-time metadata only and
    /// are never placed on the wire.
    Named(Vec<NamedField>),
}

/// The mathematical model of a [`FieldShape`].
pub enum ShapeModel {
    Unit,
    Positional(Seq<TypeRef>),
    Named(Seq<NamedField>),
}

impl View for FieldShape {
    type V = ShapeModel;

    open spec fn view(&self) -> ShapeModel {
        match self {
            FieldShape::Unit => ShapeModel::Unit,
            FieldShape::Positional(tys) => ShapeModel::Positional(tys@),
            FieldShape::Named(fs) => ShapeModel::Named(fs@),
        }
    }
}

impl ShapeModel {
    /// How many fields the shape declares.
    pub open spec fn arity(self) -> nat {
        match self {
            ShapeModel::Unit => 0,
            ShapeModel::Positional(tys) => tys.len(),
            ShapeModel::Named(fs) => fs.len(),
        }
    }

    /// Whether the shape is positional with exactly one field, the shape a
    /// default arm must have.
    pub open spec fn is_positional_one(self) -> bool {
        match self {
            ShapeModel::Positional(tys) => tys.len() == 1,
            _ => false,
        }
    }
}

impl FieldShape {
    /// How many fields the shape declares.
    pub fn arity(&self) -> (r: usize)
        ensures
            r == self@.arity(),
    {
        match self {
            FieldShape::Unit => 0,
            FieldShape::Positional(tys) => tys.len(),
            FieldShape::Named(fs) => fs.len(),
        }
    }

    /// Whether the shape is positional with exactly one field.
    pub fn is_positional_one(&self) -> (r: bool)
        ensures
            r == self@.is_positional_one(),
    {
        match self {
            FieldShape::Positional(tys) => tys.len() == 1,
            _ => false,
        }
    }
}

impl Clone for FieldShape {
    fn clone(&self) -> (r: Self)
        ensures
            r@ == self@,
    {
        match self {
            FieldShape::Unit => FieldShape::Unit,
            FieldShape::Positional(tys) => {
                let mut copy: Vec<TypeRef> = Vec::new();
                let mut i: usize = 0;
                while i < tys.len()
                    invariant
                        i <= tys.len(),
                        copy@ == tys@.take(i as int),
                    decreases tys.len() - i,
                {
                    copy.push(tys[i]);
                    proof {
                        assert(copy@ =~= tys@.take(i + 1));
                    }
                    i = i + 1;
                }
                proof {
                    assert(copy@ =~= tys@);
                }
                FieldShape::Positional(copy)
            },
            FieldShape::Named(fs) => {
                let mut copy: Vec<NamedField> = Vec::new();
                let mut i: usize = 0;
                while i < fs.len()
                    invariant
                        i <= fs.len(),
                        copy@ == fs@.take(i as int),
                    decreases fs.len() - i,
                {
                    copy.push(fs[i]);
                    proof {
                        assert(copy@ =~= fs@.take(i + 1));
                    }
                    i = i + 1;
                }
                proof {
                    assert(copy@ =~= fs@);
                }
                FieldShape::Named(copy)
            },
        }
    }
}

/// How one variant's discriminant is specified in the schema.
#[derive(Debug, PartialEq, Eq)]
pub enum DiscriminantSpec {
    /// An explicit constant expression.
    Explicit(DiscExpr),
    /// No explicit discriminant: the variant takes the next value of the
    /// implicit sequence.
    Implicit,
    /// The single catch-all arm that absorbs any unmatched tag into its one
    /// field.
    DefaultArm,
}

/// One variant of a tagged union.
#[derive(Debug, PartialEq, Eq)]
pub struct VariantSchema {
    /// The variant's name, as a host-issued identifier.
    pub name: u32,
    /// The variant's field shape.
    pub shape: FieldShape,
    /// How the variant's discriminant is specified.
    pub disc: DiscriminantSpec,
}

/// The mathematical model of a [`VariantSchema`].
pub struct VariantModel {
    pub name: u32,
    pub shape: ShapeModel,
    pub disc: DiscriminantSpec,
}

impl View for VariantSchema {
    type V = VariantModel;

    open spec fn view(&self) -> VariantModel {
        VariantModel { name: self.name, shape: self.shape@, disc: self.disc }
    }
}

/// A tagged-union definition: a name and an ordered sequence of variants.
#[derive(Debug, PartialEq, Eq)]
pub struct EnumSchema {
    /// The union's name, as a host-issued identifier.
    pub name: u32,
    /// The variants, in declaration order.
    pub variants: Vec<VariantSchema>,
}

/// The mathematical model of an [`EnumSchema`].
pub struct SchemaModel {
    pub name: u32,
    pub variants: Seq<VariantModel>,
}

impl View for EnumSchema {
    type V = SchemaModel;

    open spec fn view(&self) -> SchemaModel {
        SchemaModel { name: self.name, variants: self.variants@.map_values(|v: VariantSchema| v@) }
    }
}

/// A runtime value of the union a schema describes: which variant it is, and
/// the variant's field values in declaration order. Field values are opaque
/// 64-bit scalars; a unit variant has no field values.
#[derive(Debug, PartialEq, Eq)]
pub struct EnumValue {
    /// The index of the variant in the schema's declaration order.
    pub variant_index: usize,
    /// The field values, in field declaration order.
    pub fields: Vec<u64>,
}

/// The mathematical model of an [`EnumValue`].
pub struct ValueModel {
    pub variant_index: int,
    pub fields: Seq<u64>,
}

impl View for EnumValue {
    type V = ValueModel;

    open spec fn view(&self) -> ValueModel {
        ValueModel { variant_index: self.variant_index as int, fields: self.fields@ }
    }
}

/// One slot of the wire container.
#[derive(Debug, PartialEq, Eq)]
pub enum WireSlot {
    /// An unsigned 32-bit value, the form of the tag slot.
    UInt(u32),
    /// An ordered tuple of field values. The empty tuple is the zero-length
    /// marker that unit-shaped payloads occupy their slot with.
    Tuple(Vec<u64>),
}

/// The mathematical model of a [`WireSlot`].
pub enum SlotModel {
    UInt(u32),
    Tuple(Seq<u64>),
}

impl View for WireSlot {
    type V = SlotModel;

    open spec fn view(&self) -> SlotModel {
        match self {
            WireSlot::UInt(n) => SlotModel::UInt(*n),
            WireSlot::Tuple(vs) => SlotModel::Tuple(vs@),
        }
    }
}

/// The models of a sequence of wire slots.
pub open spec fn slot_models(s: Seq<WireSlot>) -> Seq<SlotModel> {
    s.map_values(|w: WireSlot| w@)
}

/// Copies a vector of field values.
pub(crate) fn copy_u64s(xs: &Vec<u64>) -> (r: Vec<u64>)
    ensures
        r@ == xs@,
{
    let mut copy: Vec<u64> = Vec::new();
    let mut i: usize = 0;
    while i < xs.len()
        invariant
            i <= xs.len(),
            copy@ == xs@.take(i as int),
        decreases xs.len() - i,
    {
        copy.push(xs[i]);
        proof {
            assert(copy@ =~= xs@.take(i + 1));
        }
        i = i + 1;
    }
    proof {
        assert(copy@ =~= xs@);
    }
    copy
}

/// A schema-level constraint violation, found before resolution; fatal, it
/// halts generation.
#[derive(Debug, Clone, Copy, PartialEq, Eq, Structural)]
pub enum SchemaError {
    /// More than one variant is marked as the default arm.
    AtMostOneDefaultArm,
    /// A default arm does not have exactly one positional field.
    DefaultArmShape,
}

/// A decode-time failure; recoverable, always returned to the caller as a
/// typed result.
#[derive(Debug, Clone, Copy, PartialEq, Eq, Structural)]
pub enum DecodeError {
    /// The tag matched no variant and the schema has no default arm.
    UnknownDiscriminant(u32),
    /// The container is missing a slot; a transport-level condition that is
    /// surfaced rather than generated here.
    TruncatedInput,
    /// A slot's contents do not match the shape the contract expects of it.
    PayloadShapeMismatch,
}

} // verus!
