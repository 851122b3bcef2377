//! Source text of generated records and of the accessors of function
//! descriptors.

use vstd::prelude::*;
use vstd::string::*;
use crate::catalog::{
    catalog_wf, property_wf, record_wf, records_view, PropertyView, RecordDefinition, RecordView,
    StructProperty,
};
use crate::naming::{snake_case_of, to_snake};
use crate::native::{lemma_refers_below_grows, refers_below};
use crate::quote_traits::{quote_tuple_type, tuple_type_text};
use crate::render::type_text;
use crate::schema::{NamedField, SchemaFunction};
use crate::text::{quoted, quoted_text};

verus! {

/// Whether every property refers only to records of the catalog.
pub open spec fn all_refer_below(properties: Seq<PropertyView>, bound: int) -> bool {
    forall|k: int| 0 <= k < properties.len() ==> refers_below((#[trigger] properties[k]).native, bound)
}

/// One field of a record definition: public, under its generated name,
/// with its type, and followed by a comma.
pub open spec fn model_field_text(rust_name: Seq<char>, ty: Seq<char>) -> Seq<char> {
    "pub "@ + rust_name + ": "@ + ty + ","@
}

/// Writes [`model_field_text`].
pub fn model_field(rust_name: &str, ty: &str) -> (r: String)
    ensures
        r@ == model_field_text(rust_name@, ty@),
{
    let mut out = "pub ".to_owned();
    out.append(rust_name);
    out.append(": ");
    out.append(ty);
    out.append(",");
    out
}

/// The first `count` fields of a record definition, each under the
/// snake-case form of its schema name.
pub open spec fn model_fields_text(
    properties: Seq<PropertyView>,
    catalog: Seq<RecordView>,
    count: nat,
) -> Seq<char>
    decreases count,
{
    if count == 0 || count > properties.len() {
        Seq::empty()
    } else {
        model_fields_text(properties, catalog, (count - 1) as nat) + model_field_text(
            snake_case_of(properties[count - 1].wire_name),
            type_text(properties[count - 1].native, catalog),
        )
    }
}

/// The definition of a generated record.
pub open spec fn model_text(
    name: Seq<char>,
    properties: Seq<PropertyView>,
    catalog: Seq<RecordView>,
) -> Seq<char> {
    "#[derive(Clone, Debug)] pub struct "@ + name + " { "@ + model_fields_text(
        properties,
        catalog,
        properties.len(),
    ) + " }"@
}

/// The models of a list of properties.
pub open spec fn properties_view(properties: Seq<StructProperty>) -> Seq<PropertyView> {
    properties.map_values(|p: StructProperty| p@)
}

/// Writes the definition of a generated record under the given name.  There
/// is a text exactly where every property refers only to records of the
/// catalog.
pub fn generate_model(
    name: &str,
    properties: &Vec<StructProperty>,
    records: &Vec<RecordDefinition>,
) -> (r: Option<String>)
    ensures
        match r {
            Some(text) => all_refer_below(properties_view(properties@), records@.len() as int)
                && text@ == model_text(
                name@,
                properties_view(properties@),
                records_view(records@),
            ),
            None => !all_refer_below(properties_view(properties@), records@.len() as int),
        },
{
    let ghost props = properties_view(properties@);
    let ghost catalog = records_view(records@);
    let mut list = String::new();
    let mut i: usize = 0;
    while i < properties.len()
        invariant
            i <= properties.len(),
            props == properties_view(properties@),
            catalog == records_view(records@),
            forall|k: int| 0 <= k < i ==> refers_below((#[trigger] props[k]).native, records@.len() as int),
            list@ == model_fields_text(props, catalog, i as nat),
        decreases properties.len() - i,
    {
        let property = &properties[i];
        assert(props[i as int] == property@);
        let ty = match property.type_name_quote(records) {
            Some(text) => text,
            None => {
                return None;
            },
        };
        list.append(model_field(property.rust_name().as_str(), ty.as_str()).as_str());
        i = i + 1;
    }
    let mut out = "#[derive(Clone, Debug)] pub struct ".to_owned();
    out.append(name);
    out.append(" { ");
    out.append(list.as_str());
    out.append(" }");
    Some(out)
}

/// The accessor of a function's descriptor: a function under the given
/// generated name that builds the descriptor on its first call, keeps it,
/// and gives the kept one on every call.
pub open spec fn accessor_text(rust_name: Seq<char>, function: SchemaFunction) -> Seq<char> {
    "pub fn "@ + rust_name
        + "() -> &'static everscale_types::abi::Function { static ONCE: std::sync::OnceLock<everscale_types::abi::Function> = std::sync::OnceLock::new(); ONCE.get_or_init(|| { everscale_types::abi::FunctionBuilder::new(ABI_VERSION, "@
        + quoted_text(function.name@) + ").with_headers(HEADERS).with_inputs("@ + tuple_fields_text(
        function.inputs,
    ) + ").with_outputs("@ + tuple_fields_text(function.outputs) + ").build() }) }"@
}

/// The fields of a tuple wire type, taken out of the expression that
/// builds it.
pub open spec fn tuple_fields_text(fields: Vec<NamedField>) -> Seq<char> {
    "match "@ + tuple_type_text(fields)
        + " { everscale_types::abi::AbiType::Tuple(items) => items.to_vec(), _ => Vec::new() }"@
}

/// Writes [`tuple_fields_text`].
fn quote_tuple_fields(fields: &Vec<NamedField>) -> (r: String)
    ensures
        r@ == tuple_fields_text(*fields),
{
    let mut out = "match ".to_owned();
    out.append(quote_tuple_type(fields).as_str());
    out.append(
        " { everscale_types::abi::AbiType::Tuple(items) => items.to_vec(), _ => Vec::new() }",
    );
    out
}

/// Writes the accessor of a function's descriptor under the snake-case
/// form of the function's name.
pub fn generate_func_body(function: &SchemaFunction) -> (r: String)
    ensures
        r@ == accessor_text(snake_case_of(function.name@), *function),
{
    accessor(to_snake(function.name.as_str()).as_str(), function)
}

/// Writes [`accessor_text`].
pub fn accessor(rust_name: &str, function: &SchemaFunction) -> (r: String)
    ensures
        r@ == accessor_text(rust_name@, *function),
{
    let mut out = "pub fn ".to_owned();
    out.append(rust_name);
    out.append(
        "() -> &'static everscale_types::abi::Function { static ONCE: std::sync::OnceLock<everscale_types::abi::Function> = std::sync::OnceLock::new(); ONCE.get_or_init(|| { everscale_types::abi::FunctionBuilder::new(ABI_VERSION, ",
    );
    out.append(quoted(function.name.as_str()).as_str());
    out.append(").with_headers(HEADERS).with_inputs(");
    out.append(quote_tuple_fields(&function.inputs).as_str());
    out.append(").with_outputs(");
    out.append(quote_tuple_fields(&function.outputs).as_str());
    out.append(").build() }) }");
    out
}

/// Every record of a well-formed catalog refers only to records of the
/// catalog, so its definition can always be written.
pub proof fn lemma_records_refer_inside(catalog: Seq<RecordView>, i: int)
    requires
        catalog_wf(catalog),
        0 <= i < catalog.len(),
    ensures
        all_refer_below(catalog[i].properties, catalog.len() as int),
{
    let record = catalog[i];
    assert(record_wf(record, i));
    assert forall|k: int| 0 <= k < record.properties.len() implies refers_below(
        (#[trigger] record.properties[k]).native,
        catalog.len() as int,
    ) by {
        assert(property_wf(record.properties[k], i));
        lemma_refers_below_grows(record.properties[k].native, i, catalog.len() as int);
    }
}

} // verus!
