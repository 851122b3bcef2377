//! The schema vocabulary: type nodes, named fields and primitive tags.

use vstd::prelude::*;

verus! {

/// Tag of a primitive schema type, with its width or length where it has one.
#[derive(Clone, Copy, Debug, PartialEq, Eq, Structural)]
pub enum PrimitiveTag {
    UInt(u16),
    Int(u16),
    VarUInt(u8),
    VarInt(u8),
    Bool,
    Cell,
    Address,
    Bytes,
    FixedBytes(usize),
    String,
    Token,
}

/// One node of a schema type tree.
#[derive(Debug)]
pub enum SchemaTypeNode {
    UInt(u16),
    Int(u16),
    VarUInt(u8),
    VarInt(u8),
    Bool,
    /// Ordered named fields; the order is the wire order.
    Tuple(Vec<NamedField>),
    Array(Box<SchemaTypeNode>),
    FixedArray(Box<SchemaTypeNode>, usize),
    Cell,
    /// A dictionary from a plain key to a value.
    Mapping(PrimitiveTag, Box<SchemaTypeNode>),
    Address,
    Bytes,
    FixedBytes(usize),
    String,
    Token,
    Optional(Box<SchemaTypeNode>),
    /// A reference annotation; it adds nothing to the type below it.
    Ref(Box<SchemaTypeNode>),
}

/// A field of a tuple: its schema name and its type.
#[derive(Debug)]
pub struct NamedField {
    pub name: String,
    pub ty: SchemaTypeNode,
}

/// A function of the schema: its name, its ordered inputs and outputs, and
/// the selectors that tell its two layouts apart on the wire.
#[derive(Debug)]
pub struct SchemaFunction {
    pub name: String,
    pub inputs: Vec<NamedField>,
    pub outputs: Vec<NamedField>,
    pub input_selector: u32,
    pub output_selector: u32,
}

/// Kind of a message header that every function of a contract carries.
#[derive(Clone, Copy, Debug, PartialEq, Eq, Structural)]
pub enum HeaderKind {
    Time,
    Expire,
    PublicKey,
}

/// A whole contract schema.
#[derive(Debug)]
pub struct Schema {
    pub abi_version_major: u8,
    pub abi_version_minor: u8,
    pub headers: Vec<HeaderKind>,
    pub functions: Vec<SchemaFunction>,
}

/// Whether a primitive tag may key a mapping: only integers and addresses.
pub open spec fn plain_key(tag: PrimitiveTag) -> bool {
    tag is UInt || tag is Int || tag is Address
}

/// Decides [`plain_key`].
pub fn is_plain_key(tag: PrimitiveTag) -> (r: bool)
    ensures
        r == plain_key(tag),
{
    match tag {
        PrimitiveTag::UInt(_) => true,
        PrimitiveTag::Int(_) => true,
        PrimitiveTag::Address => true,
        _ => false,
    }
}

} // verus!
