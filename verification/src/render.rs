//! Names of compiled types in generated source text.

use vstd::prelude::*;
use vstd::string::*;
use crate::catalog::{records_view, RecordDefinition, RecordView, StructProperty};
use crate::naming::{snake_case_of, to_snake};
use crate::native::{refers_below, NativeRepr, NativeType};

verus! {

/// The native type that stores a primitive, as it is written in source.
pub open spec fn repr_text(repr: NativeRepr) -> Seq<char> {
    match repr {
        NativeRepr::U8 => "u8"@,
        NativeRepr::U16 => "u16"@,
        NativeRepr::U32 => "u32"@,
        NativeRepr::U64 => "u64"@,
        NativeRepr::U128 => "u128"@,
        NativeRepr::Bytes20 => "[u8; 20]"@,
        NativeRepr::Hash32 => "everscale_types::prelude::HashBytes"@,
        NativeRepr::BigUint => "num_bigint::BigUint"@,
        NativeRepr::I8 => "i8"@,
        NativeRepr::I16 => "i16"@,
        NativeRepr::I32 => "i32"@,
        NativeRepr::I64 => "i64"@,
        NativeRepr::I128 => "i128"@,
        NativeRepr::BigInt => "num_bigint::BigInt"@,
        NativeRepr::Bool => "bool"@,
        NativeRepr::ByteVec => "Vec<u8>"@,
        NativeRepr::Text => "String"@,
        NativeRepr::Tokens => "everscale_types::num::Tokens"@,
        NativeRepr::Address => "everscale_types::models::message::StdAddr"@,
        NativeRepr::Cell => "everscale_types::prelude::Cell"@,
    }
}

/// Gives [`repr_text`].
pub fn repr_name(repr: NativeRepr) -> (r: &'static str)
    ensures
        r@ == repr_text(repr),
{
    match repr {
        NativeRepr::U8 => "u8",
        NativeRepr::U16 => "u16",
        NativeRepr::U32 => "u32",
        NativeRepr::U64 => "u64",
        NativeRepr::U128 => "u128",
        NativeRepr::Bytes20 => "[u8; 20]",
        NativeRepr::Hash32 => "everscale_types::prelude::HashBytes",
        NativeRepr::BigUint => "num_bigint::BigUint",
        NativeRepr::I8 => "i8",
        NativeRepr::I16 => "i16",
        NativeRepr::I32 => "i32",
        NativeRepr::I64 => "i64",
        NativeRepr::I128 => "i128",
        NativeRepr::BigInt => "num_bigint::BigInt",
        NativeRepr::Bool => "bool",
        NativeRepr::ByteVec => "Vec<u8>",
        NativeRepr::Text => "String",
        NativeRepr::Tokens => "everscale_types::num::Tokens",
        NativeRepr::Address => "everscale_types::models::message::StdAddr",
        NativeRepr::Cell => "everscale_types::prelude::Cell",
    }
}

/// A compiled type as it is written in source: a primitive by its native
/// type, a record by its name in the catalog, a sequence as a vector, a
/// nullable as an option, and a mapping as an ordered map.
pub open spec fn type_text(ty: NativeType, catalog: Seq<RecordView>) -> Seq<char>
    recommends
        refers_below(ty, catalog.len() as int),
    decreases ty,
{
    match ty {
        NativeType::Primitive(repr) => repr_text(repr),
        NativeType::Record(index) => catalog[index as int].name,
        NativeType::Sequence(inner) => "Vec<"@ + type_text(*inner, catalog) + ">"@,
        NativeType::Nullable(inner) => "Option<"@ + type_text(*inner, catalog) + ">"@,
        NativeType::Mapping(key, value) => "std::collections::BTreeMap<"@ + type_text(
            *key,
            catalog,
        ) + ", "@ + type_text(*value, catalog) + ">"@,
    }
}

/// Writes a compiled type as source text.  There is a text exactly where
/// every record that the type refers to is in the catalog.
pub fn type_source(ty: &NativeType, records: &Vec<RecordDefinition>) -> (r: Option<String>)
    ensures
        match r {
            Some(text) => refers_below(*ty, records@.len() as int) && text@ == type_text(
                *ty,
                records_view(records@),
            ),
            None => !refers_below(*ty, records@.len() as int),
        },
    decreases *ty,
{
    match ty {
        NativeType::Primitive(repr) => Some(repr_name(*repr).to_owned()),
        NativeType::Record(index) => {
            if *index < records.len() {
                Some(records[*index].name.clone())
            } else {
                None
            }
        },
        NativeType::Sequence(inner) => match type_source(inner, records) {
            Some(text) => Some("Vec<".to_owned().concat(text.as_str()).concat(">")),
            None => None,
        },
        NativeType::Nullable(inner) => match type_source(inner, records) {
            Some(text) => Some("Option<".to_owned().concat(text.as_str()).concat(">")),
            None => None,
        },
        NativeType::Mapping(key, value) => match type_source(key, records) {
            Some(key_text) => match type_source(value, records) {
                Some(value_text) => Some(
                    "std::collections::BTreeMap<".to_owned().concat(key_text.as_str()).concat(
                        ", ",
                    ).concat(value_text.as_str()).concat(">"),
                ),
                None => None,
            },
            None => None,
        },
    }
}

impl StructProperty {
    /// The field's name in the schema.
    pub fn name(&self) -> (r: String)
        ensures
            r@ == self.wire_name@,
    {
        self.wire_name.clone()
    }

    /// The field's name in a generated record: the snake-case form of its
    /// schema name.
    pub fn rust_name(&self) -> (r: String)
        ensures
            r@ == snake_case_of(self.wire_name@),
    {
        to_snake(self.wire_name.as_str())
    }

    /// The field's type as source text: see [`type_source`].
    pub fn type_name_quote(&self, records: &Vec<RecordDefinition>) -> (r: Option<String>)
        ensures
            match r {
                Some(text) => refers_below(self.native, records@.len() as int) && text@
                    == type_text(self.native, records_view(records@)),
                None => !refers_below(self.native, records@.len() as int),
            },
    {
        type_source(&self.native, records)
    }
}

} // verus!
