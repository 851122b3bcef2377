//! Native representations: the primitive type table and compiled types.

use vstd::prelude::*;
use crate::schema::PrimitiveTag;

verus! {

/// Storage chosen for a primitive schema type.
#[derive(Clone, Copy, Debug, PartialEq, Eq, Structural)]
pub enum NativeRepr {
    U8,
    U16,
    U32,
    U64,
    U128,
    /// Twenty bytes, for 160-bit unsigned integers.
    Bytes20,
    /// A 32-byte hash value, for 256-bit unsigned integers.
    Hash32,
    BigUint,
    I8,
    I16,
    I32,
    I64,
    I128,
    BigInt,
    Bool,
    ByteVec,
    Text,
    Tokens,
    Address,
    Cell,
}

/// A compiled type: a primitive, a reference to a record of the catalog by
/// its position there, or a wrapper around compiled types.
#[derive(Debug, PartialEq, Eq)]
pub enum NativeType {
    Primitive(NativeRepr),
    Record(usize),
    Sequence(Box<NativeType>),
    Nullable(Box<NativeType>),
    Mapping(Box<NativeType>, Box<NativeType>),
}

/// The primitive type table.
pub open spec fn native_repr_of(tag: PrimitiveTag) -> NativeRepr {
    match tag {
        PrimitiveTag::UInt(w) => if w == 8 {
            NativeRepr::U8
        } else if w == 16 {
            NativeRepr::U16
        } else if w == 32 {
            NativeRepr::U32
        } else if w == 64 {
            NativeRepr::U64
        } else if w == 128 {
            NativeRepr::U128
        } else if w == 160 {
            NativeRepr::Bytes20
        } else if w == 256 {
            NativeRepr::Hash32
        } else {
            NativeRepr::BigUint
        },
        PrimitiveTag::Int(w) => if w == 8 {
            NativeRepr::I8
        } else if w == 16 {
            NativeRepr::I16
        } else if w == 32 {
            NativeRepr::I32
        } else if w == 64 {
            NativeRepr::I64
        } else if w == 128 {
            NativeRepr::I128
        } else {
            NativeRepr::BigInt
        },
        PrimitiveTag::VarUInt(_) => NativeRepr::BigUint,
        PrimitiveTag::VarInt(_) => NativeRepr::BigUint,
        PrimitiveTag::Bool => NativeRepr::Bool,
        PrimitiveTag::Cell => NativeRepr::Cell,
        PrimitiveTag::Address => NativeRepr::Address,
        PrimitiveTag::Bytes => NativeRepr::ByteVec,
        PrimitiveTag::FixedBytes(_) => NativeRepr::ByteVec,
        PrimitiveTag::String => NativeRepr::Text,
        PrimitiveTag::Token => NativeRepr::Tokens,
    }
}

/// Looks a primitive tag up in the type table.  Total: every tag has a
/// representation.
pub fn native_type_for(tag: PrimitiveTag) -> (repr: NativeRepr)
    ensures
        repr == native_repr_of(tag),
{
    match tag {
        PrimitiveTag::UInt(w) => match w {
            8 => NativeRepr::U8,
            16 => NativeRepr::U16,
            32 => NativeRepr::U32,
            64 => NativeRepr::U64,
            128 => NativeRepr::U128,
            160 => NativeRepr::Bytes20,
            256 => NativeRepr::Hash32,
            _ => NativeRepr::BigUint,
        },
        PrimitiveTag::Int(w) => match w {
            8 => NativeRepr::I8,
            16 => NativeRepr::I16,
            32 => NativeRepr::I32,
            64 => NativeRepr::I64,
            128 => NativeRepr::I128,
            _ => NativeRepr::BigInt,
        },
        PrimitiveTag::VarUInt(_) | PrimitiveTag::VarInt(_) => NativeRepr::BigUint,
        PrimitiveTag::Bool => NativeRepr::Bool,
        PrimitiveTag::Cell => NativeRepr::Cell,
        PrimitiveTag::Address => NativeRepr::Address,
        PrimitiveTag::Bytes | PrimitiveTag::FixedBytes(_) => NativeRepr::ByteVec,
        PrimitiveTag::String => NativeRepr::Text,
        PrimitiveTag::Token => NativeRepr::Tokens,
    }
}

/// Whether every record that a compiled type refers to stands below
/// position `bound` of the catalog.
pub open spec fn refers_below(ty: NativeType, bound: int) -> bool
    decreases ty,
{
    match ty {
        NativeType::Primitive(_) => true,
        NativeType::Record(index) => index < bound,
        NativeType::Sequence(inner) => refers_below(*inner, bound),
        NativeType::Nullable(inner) => refers_below(*inner, bound),
        NativeType::Mapping(key, value) => refers_below(*key, bound) && refers_below(
            *value,
            bound,
        ),
    }
}

/// A reference that stands below one bound stands below every larger one.
pub proof fn lemma_refers_below_grows(ty: NativeType, bound: int, larger: int)
    requires
        refers_below(ty, bound),
        bound <= larger,
    ensures
        refers_below(ty, larger),
    decreases ty,
{
    match ty {
        NativeType::Primitive(_) => {},
        NativeType::Record(_) => {},
        NativeType::Sequence(inner) => lemma_refers_below_grows(*inner, bound, larger),
        NativeType::Nullable(inner) => lemma_refers_below_grows(*inner, bound, larger),
        NativeType::Mapping(key, value) => {
            lemma_refers_below_grows(*key, bound, larger);
            lemma_refers_below_grows(*value, bound, larger);
        },
    }
}

} // verus!
