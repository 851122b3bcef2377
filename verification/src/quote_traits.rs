//! Source text of the conversions that a generated record implements: its
//! wire type, and its transforms to and from wire values.

use vstd::prelude::*;
use vstd::string::*;
use crate::naming::{snake_case_of, to_snake};
use crate::schema::{NamedField, PrimitiveTag, SchemaTypeNode};
use crate::text::{decimal, decimal_text, quoted, quoted_text};

verus! {

/// A primitive tag as the variant of a wire type that it names.
pub open spec fn atom_text(tag: PrimitiveTag) -> Seq<char> {
    match tag {
        PrimitiveTag::UInt(w) => "Uint("@ + decimal_text(w as nat) + ")"@,
        PrimitiveTag::Int(w) => "Int("@ + decimal_text(w as nat) + ")"@,
        PrimitiveTag::VarUInt(w) => "VarUint(core::num::NonZeroU8::new("@ + decimal_text(w as nat)
            + ").unwrap())"@,
        PrimitiveTag::VarInt(w) => "VarInt(core::num::NonZeroU8::new("@ + decimal_text(w as nat)
            + ").unwrap())"@,
        PrimitiveTag::Bool => "Bool"@,
        PrimitiveTag::Cell => "Cell"@,
        PrimitiveTag::Address => "Address"@,
        PrimitiveTag::Bytes => "Bytes"@,
        PrimitiveTag::FixedBytes(len) => "FixedBytes("@ + decimal_text(len as nat) + ")"@,
        PrimitiveTag::String => "String"@,
        PrimitiveTag::Token => "Token"@,
    }
}

/// Writes [`atom_text`].
pub fn quote_atom(tag: PrimitiveTag) -> (r: String)
    ensures
        r@ == atom_text(tag),
{
    match tag {
        PrimitiveTag::UInt(w) => {
            let mut out = "Uint(".to_owned();
            out.append(decimal(w as u64).as_str());
            out.append(")");
            out
        },
        PrimitiveTag::Int(w) => {
            let mut out = "Int(".to_owned();
            out.append(decimal(w as u64).as_str());
            out.append(")");
            out
        },
        PrimitiveTag::VarUInt(w) => {
            let mut out = "VarUint(core::num::NonZeroU8::new(".to_owned();
            out.append(decimal(w as u64).as_str());
            out.append(").unwrap())");
            out
        },
        PrimitiveTag::VarInt(w) => {
            let mut out = "VarInt(core::num::NonZeroU8::new(".to_owned();
            out.append(decimal(w as u64).as_str());
            out.append(").unwrap())");
            out
        },
        PrimitiveTag::Bool => "Bool".to_owned(),
        PrimitiveTag::Cell => "Cell".to_owned(),
        PrimitiveTag::Address => "Address".to_owned(),
        PrimitiveTag::Bytes => "Bytes".to_owned(),
        PrimitiveTag::FixedBytes(len) => {
            let mut out = "FixedBytes(".to_owned();
            out.append(decimal(len as u64).as_str());
            out.append(")");
            out
        },
        PrimitiveTag::String => "String".to_owned(),
        PrimitiveTag::Token => "Token".to_owned(),
    }
}

/// The wire type of a primitive, as an expression.
pub open spec fn primitive_type_text(tag: PrimitiveTag) -> Seq<char> {
    "everscale_types::abi::AbiType::"@ + atom_text(tag)
}

/// Writes [`primitive_type_text`].
fn quote_primitive(tag: PrimitiveTag) -> (r: String)
    ensures
        r@ == primitive_type_text(tag),
{
    let mut out = "everscale_types::abi::AbiType::".to_owned();
    out.append(quote_atom(tag).as_str());
    out
}

/// The wire type of a schema type, as an expression that builds it.
pub open spec fn abi_type_text(node: SchemaTypeNode) -> Seq<char>
    decreases node, 0nat,
{
    match node {
        SchemaTypeNode::UInt(w) => primitive_type_text(PrimitiveTag::UInt(w)),
        SchemaTypeNode::Int(w) => primitive_type_text(PrimitiveTag::Int(w)),
        SchemaTypeNode::VarUInt(w) => primitive_type_text(PrimitiveTag::VarUInt(w)),
        SchemaTypeNode::VarInt(w) => primitive_type_text(PrimitiveTag::VarInt(w)),
        SchemaTypeNode::Bool => primitive_type_text(PrimitiveTag::Bool),
        SchemaTypeNode::Cell => primitive_type_text(PrimitiveTag::Cell),
        SchemaTypeNode::Address => primitive_type_text(PrimitiveTag::Address),
        SchemaTypeNode::Bytes => primitive_type_text(PrimitiveTag::Bytes),
        SchemaTypeNode::FixedBytes(len) => primitive_type_text(PrimitiveTag::FixedBytes(len)),
        SchemaTypeNode::String => primitive_type_text(PrimitiveTag::String),
        SchemaTypeNode::Token => primitive_type_text(PrimitiveTag::Token),
        SchemaTypeNode::Tuple(fields) => tuple_type_text(fields),
        SchemaTypeNode::Array(inner) => "everscale_types::abi::AbiType::Array(std::sync::Arc::new("@
            + abi_type_text(*inner) + "))"@,
        SchemaTypeNode::FixedArray(inner, len) =>
            "everscale_types::abi::AbiType::FixedArray(std::sync::Arc::new("@ + abi_type_text(
            *inner,
        ) + "), "@ + decimal_text(len as nat) + ")"@,
        SchemaTypeNode::Mapping(tag, value) =>
            "everscale_types::abi::AbiType::Map(everscale_types::abi::PlainAbiType::"@ + atom_text(
            tag,
        ) + ", std::sync::Arc::new("@ + abi_type_text(*value) + "))"@,
        SchemaTypeNode::Optional(inner) =>
            "everscale_types::abi::AbiType::Optional(std::sync::Arc::new("@ + abi_type_text(*inner)
            + "))"@,
        SchemaTypeNode::Ref(inner) => "everscale_types::abi::AbiType::Ref(std::sync::Arc::new("@
            + abi_type_text(*inner) + "))"@,
    }
}

/// The wire type of a field list: a tuple of its named types.
pub open spec fn tuple_type_text(fields: Vec<NamedField>) -> Seq<char>
    decreases fields, fields@.len() + 1,
{
    "everscale_types::abi::AbiType::Tuple(std::sync::Arc::new(["@ + named_types_text(
        fields,
        fields@.len(),
    ) + "]))"@
}

/// The first `count` fields of a list as named wire types, each followed by
/// a comma.
pub open spec fn named_types_text(fields: Vec<NamedField>, count: nat) -> Seq<char>
    decreases fields, count,
{
    if count == 0 || count > fields@.len() {
        Seq::empty()
    } else {
        named_types_text(fields, (count - 1) as nat) + named_type_text(
            fields@[count - 1].name@,
            fields@[count - 1].ty,
        ) + ","@
    }
}

/// A named wire type, as an expression that builds it.
pub open spec fn named_type_text(name: Seq<char>, ty: SchemaTypeNode) -> Seq<char>
    decreases ty, 1nat,
{
    "NamedAbiType::new("@ + quoted_text(name) + ", "@ + abi_type_text(ty) + ")"@
}

/// Writes the expression that builds the wire type of a schema type.
pub fn quote_abi_type(node: &SchemaTypeNode) -> (r: String)
    ensures
        r@ == abi_type_text(*node),
    decreases *node, 0nat,
{
    match node {
        SchemaTypeNode::UInt(w) => quote_primitive(PrimitiveTag::UInt(*w)),
        SchemaTypeNode::Int(w) => quote_primitive(PrimitiveTag::Int(*w)),
        SchemaTypeNode::VarUInt(w) => quote_primitive(PrimitiveTag::VarUInt(*w)),
        SchemaTypeNode::VarInt(w) => quote_primitive(PrimitiveTag::VarInt(*w)),
        SchemaTypeNode::Bool => quote_primitive(PrimitiveTag::Bool),
        SchemaTypeNode::Cell => quote_primitive(PrimitiveTag::Cell),
        SchemaTypeNode::Address => quote_primitive(PrimitiveTag::Address),
        SchemaTypeNode::Bytes => quote_primitive(PrimitiveTag::Bytes),
        SchemaTypeNode::FixedBytes(len) => quote_primitive(PrimitiveTag::FixedBytes(*len)),
        SchemaTypeNode::String => quote_primitive(PrimitiveTag::String),
        SchemaTypeNode::Token => quote_primitive(PrimitiveTag::Token),
        SchemaTypeNode::Tuple(fields) => {
            proof {
                assert(decreases_to!(*node => node->Tuple_0));
            }
            quote_tuple_type(fields)
        },
        SchemaTypeNode::Array(inner) => {
            let mut out = "everscale_types::abi::AbiType::Array(std::sync::Arc::new(".to_owned();
            out.append(quote_abi_type(inner).as_str());
            out.append("))");
            out
        },
        SchemaTypeNode::FixedArray(inner, len) => {
            let mut out =
                "everscale_types::abi::AbiType::FixedArray(std::sync::Arc::new(".to_owned();
            out.append(quote_abi_type(inner).as_str());
            out.append("), ");
            out.append(decimal(*len as u64).as_str());
            out.append(")");
            out
        },
        SchemaTypeNode::Mapping(tag, value) => {
            let mut out =
                "everscale_types::abi::AbiType::Map(everscale_types::abi::PlainAbiType::".to_owned();
            out.append(quote_atom(*tag).as_str());
            out.append(", std::sync::Arc::new(");
            out.append(quote_abi_type(value).as_str());
            out.append("))");
            out
        },
        SchemaTypeNode::Optional(inner) => {
            let mut out =
                "everscale_types::abi::AbiType::Optional(std::sync::Arc::new(".to_owned();
            out.append(quote_abi_type(inner).as_str());
            out.append("))");
            out
        },
        SchemaTypeNode::Ref(inner) => {
            let mut out = "everscale_types::abi::AbiType::Ref(std::sync::Arc::new(".to_owned();
            out.append(quote_abi_type(inner).as_str());
            out.append("))");
            out
        },
    }
}

/// Writes the expression that builds a named wire type.
pub fn make_abi_type(name: &str, abi_type: &SchemaTypeNode) -> (r: String)
    ensures
        r@ == named_type_text(name@, *abi_type),
    decreases *abi_type, 1nat,
{
    let mut out = "NamedAbiType::new(".to_owned();
    out.append(quoted(name).as_str());
    out.append(", ");
    out.append(quote_abi_type(abi_type).as_str());
    out.append(")");
    out
}

/// Writes the wire type of a field list.
pub fn quote_tuple_type(fields: &Vec<NamedField>) -> (r: String)
    ensures
        r@ == tuple_type_text(*fields),
    decreases *fields, fields@.len() + 1,
{
    let mut list = String::new();
    let mut i: usize = 0;
    while i < fields.len()
        invariant
            i <= fields.len(),
            list@ == named_types_text(*fields, i as nat),
        decreases fields.len() - i,
    {
        let ghost before = list@;
        proof {
            assert(decreases_to!(*fields => fields@[i as int].ty));
        }
        let field = &fields[i];
        let mut named = make_abi_type(field.name.as_str(), &field.ty);
        named.append(",");
        list.append(named.as_str());
        proof {
            assert(list@ =~= named_types_text(*fields, (i + 1) as nat));
        }
        i = i + 1;
    }
    let mut out = "everscale_types::abi::AbiType::Tuple(std::sync::Arc::new([".to_owned();
    out.append(list.as_str());
    out.append("]))");
    out
}

/// The expression that reads the field of a record under the given
/// generated name as a wire value.
pub open spec fn abi_value_text(rust_name: Seq<char>) -> Seq<char> {
    "everscale_types::abi::IntoAbi::as_abi(&self."@ + rust_name + ")"@
}

/// Writes [`abi_value_text`].
pub fn abi_value_of(rust_name: &str) -> (r: String)
    ensures
        r@ == abi_value_text(rust_name@),
{
    let mut out = "everscale_types::abi::IntoAbi::as_abi(&self.".to_owned();
    out.append(rust_name);
    out.append(")");
    out
}

/// Writes the expression that reads a field as a wire value; the field is
/// read under the snake-case form of its schema name.
pub fn quote_abi_value(name: &str) -> (r: String)
    ensures
        r@ == abi_value_text(snake_case_of(name@)),
{
    abi_value_of(to_snake(name).as_str())
}

/// One field of a record as a named wire value, followed by a comma: the
/// wire name is the schema name, the value is read under the generated
/// name.
pub open spec fn into_field_text(wire_name: Seq<char>, rust_name: Seq<char>) -> Seq<char> {
    "NamedAbiValue { name: { let arc: std::sync::Arc<str> = std::sync::Arc::from("@ + quoted_text(
        wire_name,
    ) + "); arc }, value: "@ + abi_value_text(rust_name) + ", },"@
}

/// Writes [`into_field_text`].
pub fn into_field(wire_name: &str, rust_name: &str) -> (r: String)
    ensures
        r@ == into_field_text(wire_name@, rust_name@),
{
    let mut out =
        "NamedAbiValue { name: { let arc: std::sync::Arc<str> = std::sync::Arc::from(".to_owned();
    out.append(quoted(wire_name).as_str());
    out.append("); arc }, value: ");
    out.append(abi_value_of(rust_name).as_str());
    out.append(", },");
    out
}

/// One field of a record read from the iterator of wire values, under its
/// generated name and followed by a comma.
pub open spec fn from_field_text(struct_name: Seq<char>, rust_name: Seq<char>) -> Seq<char> {
    rust_name + ": everscale_types::abi::FromAbiIter::<"@ + struct_name
        + ">::next_value(&mut iterator)?,"@
}

/// Writes [`from_field_text`].
pub fn from_field(struct_name: &str, rust_name: &str) -> (r: String)
    ensures
        r@ == from_field_text(struct_name@, rust_name@),
{
    let mut out = rust_name.to_owned();
    out.append(": everscale_types::abi::FromAbiIter::<");
    out.append(struct_name);
    out.append(">::next_value(&mut iterator)?,");
    out
}

/// The first `count` fields of a record as named wire values, each under
/// the snake-case form of its schema name.
pub open spec fn into_fields_text(fields: Seq<NamedField>, count: nat) -> Seq<char>
    decreases count,
{
    if count == 0 || count > fields.len() {
        Seq::empty()
    } else {
        into_fields_text(fields, (count - 1) as nat) + into_field_text(
            fields[count - 1].name@,
            snake_case_of(fields[count - 1].name@),
        )
    }
}

/// The first `count` fields of a record, each read from the iterator of
/// wire values under the snake-case form of its schema name.
pub open spec fn from_fields_text(struct_name: Seq<char>, fields: Seq<NamedField>, count: nat) -> Seq<
    char,
>
    decreases count,
{
    if count == 0 || count > fields.len() {
        Seq::empty()
    } else {
        from_fields_text(struct_name, fields, (count - 1) as nat) + from_field_text(
            struct_name,
            snake_case_of(fields[count - 1].name@),
        )
    }
}

/// The implementation that gives a record's wire type.
pub open spec fn with_abi_type_text(struct_name: Seq<char>, fields: Vec<NamedField>) -> Seq<char> {
    "impl WithAbiType for "@ + struct_name + " { fn abi_type() -> AbiType { "@ + tuple_type_text(
        fields,
    ) + " } }"@
}

/// The implementation that turns a record into wire values, field by field
/// in field order.
pub open spec fn into_abi_text(struct_name: Seq<char>, fields: Seq<NamedField>) -> Seq<char> {
    "impl IntoAbi for "@ + struct_name + " { fn as_abi(&self) -> AbiValue { AbiValue::Tuple(vec!["@
        + into_fields_text(fields, fields.len())
        + "]) } fn into_abi(self) -> AbiValue where Self: Sized, { AbiValue::Tuple(vec!["@
        + into_fields_text(fields, fields.len()) + "]) } }"@
}

/// The test on the number of wire values that stands before the first
/// read: a sequence with fewer or more values than the record has fields
/// is refused with an error that gives both lengths, and no field is read.
pub open spec fn arity_guard_text(count: nat) -> Seq<char> {
    "if properties.len() != "@ + decimal_text(count)
        + " { return Err(anyhow::Error::from(everscale_types::abi::error::AbiError::ArraySizeMismatch { expected: "@
        + decimal_text(count) + ", len: properties.len(), })); } "@
}

/// Writes [`arity_guard_text`].
pub fn arity_guard(count: usize) -> (r: String)
    ensures
        r@ == arity_guard_text(count as nat),
{
    let mut out = "if properties.len() != ".to_owned();
    out.append(decimal(count as u64).as_str());
    out.append(
        " { return Err(anyhow::Error::from(everscale_types::abi::error::AbiError::ArraySizeMismatch { expected: ",
    );
    out.append(decimal(count as u64).as_str());
    out.append(", len: properties.len(), })); } ");
    out
}

/// The implementation that reads a record from wire values.  It refuses a
/// value that is no tuple, then a tuple that has not exactly one value per
/// field, and only then reads the fields in field order.
pub open spec fn from_abi_text(struct_name: Seq<char>, fields: Seq<NamedField>) -> Seq<char> {
    "impl FromAbi for "@ + struct_name
        + " { fn from_abi(value: AbiValue) -> Result<Self> { match value { AbiValue::Tuple(properties) => { "@
        + arity_guard_text(fields.len()) + "let mut iterator = properties.into_iter(); Ok("@
        + struct_name + " { "@ + from_fields_text(struct_name, fields, fields.len())
        + " }) }, _ => Err(anyhow::Error::from(everscale_types::abi::error::AbiError::TypeMismatch { expected: std::boxed::Box::<str>::from(\"tuple\"), ty: value.display_type().to_string().into(), })), } } }"@
}

/// The three implementations of a record, one after the other: its wire
/// type, its transform to wire values, and its transform from them.
pub open spec fn traits_text(name: Seq<char>, fields: Vec<NamedField>) -> Seq<char> {
    with_abi_type_text(name, fields) + " "@ + into_abi_text(name, fields@) + " "@ + from_abi_text(
        name,
        fields@,
    )
}

/// Writes the conversions of generated records.
pub struct TraitImplGen {}

impl TraitImplGen {
    /// A writer.  It keeps no state between records.
    pub fn new() -> Self {
        Self {}
    }

    /// Writes the three implementations of a record: see [`traits_text`].
    pub fn implement_traits(&self, name: &str, properties: &Vec<NamedField>) -> (r: String)
        ensures
            r@ == traits_text(name@, *properties),
    {
        let mut out = self.implement_with_abi_type(name, properties);
        out.append(" ");
        out.append(self.implement_into_abi(name, properties).as_str());
        out.append(" ");
        out.append(self.implement_from_abi(name, properties).as_str());
        out
    }

    /// Writes the implementation that gives a record's wire type.
    pub fn implement_with_abi_type(&self, struct_name: &str, properties: &Vec<NamedField>) -> (r:
        String)
        ensures
            r@ == with_abi_type_text(struct_name@, *properties),
    {
        let mut out = "impl WithAbiType for ".to_owned();
        out.append(struct_name);
        out.append(" { fn abi_type() -> AbiType { ");
        out.append(quote_tuple_type(properties).as_str());
        out.append(" } }");
        out
    }

    /// Writes the implementation that reads a record from wire values: see
    /// [`from_abi_text`].
    pub fn implement_from_abi(&self, struct_name: &str, properties: &Vec<NamedField>) -> (r: String)
        ensures
            r@ == from_abi_text(struct_name@, properties@),
    {
        let mut list = String::new();
        let mut i: usize = 0;
        while i < properties.len()
            invariant
                i <= properties.len(),
                list@ == from_fields_text(struct_name@, properties@, i as nat),
            decreases properties.len() - i,
        {
            let rust_name = to_snake(properties[i].name.as_str());
            list.append(from_field(struct_name, rust_name.as_str()).as_str());
            i = i + 1;
        }
        let mut out = "impl FromAbi for ".to_owned();
        out.append(struct_name);
        out.append(
            " { fn from_abi(value: AbiValue) -> Result<Self> { match value { AbiValue::Tuple(properties) => { ",
        );
        out.append(arity_guard(properties.len()).as_str());
        out.append("let mut iterator = properties.into_iter(); Ok(");
        out.append(struct_name);
        out.append(" { ");
        out.append(list.as_str());
        out.append(
            " }) }, _ => Err(anyhow::Error::from(everscale_types::abi::error::AbiError::TypeMismatch { expected: std::boxed::Box::<str>::from(\"tuple\"), ty: value.display_type().to_string().into(), })), } } }",
        );
        out
    }

    /// Writes the implementation that turns a record into wire values.
    pub fn implement_into_abi(&self, struct_name: &str, properties: &Vec<NamedField>) -> (r: String)
        ensures
            r@ == into_abi_text(struct_name@, properties@),
    {
        let mut list = String::new();
        let mut i: usize = 0;
        while i < properties.len()
            invariant
                i <= properties.len(),
                list@ == into_fields_text(properties@, i as nat),
            decreases properties.len() - i,
        {
            let name = properties[i].name.as_str();
            let rust_name = to_snake(name);
            list.append(into_field(name, rust_name.as_str()).as_str());
            i = i + 1;
        }
        let mut out = "impl IntoAbi for ".to_owned();
        out.append(struct_name);
        out.append(" { fn as_abi(&self) -> AbiValue { AbiValue::Tuple(vec![");
        out.append(list.as_str());
        out.append("]) } fn into_abi(self) -> AbiValue where Self: Sized, { AbiValue::Tuple(vec![");
        out.append(list.as_str());
        out.append("]) } }");
        out
    }
}

} // verus!
