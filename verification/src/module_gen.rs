//! Source text of the whole generated module: the records, their
//! conversions, and the accessors of the functions that compiled.

use vstd::prelude::*;
use vstd::string::*;
use crate::assembler::{Assembly, FunctionDescriptor};
use crate::catalog::{catalog_wf, records_view, RecordDefinition, RecordView};
use crate::naming::snake_case_of;
use crate::origin::{covered, named_by, schema_fields_of};
use crate::quote_traits::{traits_text, TraitImplGen};
use crate::schema::{HeaderKind, NamedField, Schema, SchemaFunction, SchemaTypeNode};
use crate::shape::{field_shapes, Shape};
use crate::struct_gen::{
    accessor_text, all_refer_below, generate_func_body, generate_model,
    lemma_records_refer_inside, model_text, properties_view,
};
use crate::text::{decimal, decimal_text};

verus! {

/// Whether a field list is what a record stands for: it has the record's
/// shape, and its tuples carry the wire names of the catalog's records.
pub open spec fn origin_of(
    catalog: Seq<RecordView>,
    record: RecordView,
    fields: Vec<NamedField>,
) -> bool {
    &&& record.shape == Shape::Tuple(field_shapes(fields))
    &&& named_by(catalog, SchemaTypeNode::Tuple(fields))
}

/// Builds, for every record of a catalog, the field list that it stands
/// for.  There is a list exactly where the catalog covers every record.
pub fn record_origins(records: &Vec<RecordDefinition>) -> (r: Option<Vec<Vec<NamedField>>>)
    ensures
        match r {
            Some(origins) => origins@.len() == records@.len() && forall|i: int|
                0 <= i < records@.len() ==> origin_of(
                    records_view(records@),
                    (#[trigger] records@[i])@,
                    origins@[i],
                ),
            None => exists|i: int|
                0 <= i < records@.len() && !((#[trigger] records@[i])@.shape is Tuple && covered(
                    records_view(records@),
                    records@[i]@.shape,
                )),
        },
{
    let mut origins: Vec<Vec<NamedField>> = Vec::new();
    let mut i: usize = 0;
    while i < records.len()
        invariant
            i <= records.len(),
            origins@.len() == i,
            forall|k: int|
                0 <= k < i ==> origin_of(
                    records_view(records@),
                    (#[trigger] records@[k])@,
                    origins@[k],
                ),
        decreases records.len() - i,
    {
        match schema_fields_of(&records[i], records) {
            Some(fields) => origins.push(fields),
            None => {
                return None;
            },
        }
        i = i + 1;
    }
    Some(origins)
}

/// A header kind as the outside type's variant that it names.
pub open spec fn header_text(kind: HeaderKind) -> Seq<char> {
    match kind {
        HeaderKind::Time => "everscale_types::abi::AbiHeaderType::Time"@,
        HeaderKind::Expire => "everscale_types::abi::AbiHeaderType::Expire"@,
        HeaderKind::PublicKey => "everscale_types::abi::AbiHeaderType::PublicKey"@,
    }
}

/// Gives [`header_text`].
pub fn header_name(kind: HeaderKind) -> (r: &'static str)
    ensures
        r@ == header_text(kind),
{
    match kind {
        HeaderKind::Time => "everscale_types::abi::AbiHeaderType::Time",
        HeaderKind::Expire => "everscale_types::abi::AbiHeaderType::Expire",
        HeaderKind::PublicKey => "everscale_types::abi::AbiHeaderType::PublicKey",
    }
}

/// The first `count` headers in order, each followed by a comma.
pub open spec fn headers_text(headers: Seq<HeaderKind>, count: nat) -> Seq<char>
    decreases count,
{
    if count == 0 || count > headers.len() {
        Seq::empty()
    } else {
        headers_text(headers, (count - 1) as nat) + header_text(headers[count - 1]) + ","@
    }
}

/// The definitions of the first `count` records of a catalog, in the
/// catalog's order, each followed by a space.
pub open spec fn models_text(records: Seq<RecordDefinition>, count: nat) -> Seq<char>
    decreases count,
{
    if count == 0 || count > records.len() {
        Seq::empty()
    } else {
        models_text(records, (count - 1) as nat) + model_text(
            records[count - 1].name@,
            properties_view(records[count - 1].properties@),
            records_view(records),
        ) + " "@
    }
}

/// The conversions of the first `count` records of a catalog, each written
/// for the field list that the record stands for and followed by a space.
pub open spec fn impls_text(
    records: Seq<RecordDefinition>,
    origins: Seq<Vec<NamedField>>,
    count: nat,
) -> Seq<char>
    decreases count,
{
    if count == 0 || count > records.len() || count > origins.len() {
        Seq::empty()
    } else {
        impls_text(records, origins, (count - 1) as nat) + traits_text(
            records[count - 1].name@,
            origins[count - 1],
        ) + " "@
    }
}

/// The accessors of the first `count` descriptors, each written for the
/// schema function at the descriptor's position and followed by a space.
pub open spec fn accessors_text(
    functions: Seq<SchemaFunction>,
    descriptors: Seq<FunctionDescriptor>,
    count: nat,
) -> Seq<char>
    decreases count,
{
    if count == 0 || count > descriptors.len() {
        Seq::empty()
    } else {
        accessors_text(functions, descriptors, (count - 1) as nat) + accessor_text(
            snake_case_of(functions[descriptors[count - 1].position as int].name@),
            functions[descriptors[count - 1].position as int],
        ) + " "@
    }
}

/// Whether a module can be written: there is one field list per record,
/// every record refers only to records of the catalog, and every
/// descriptor's position is one of the schema's functions.
pub open spec fn module_writable(
    schema: Schema,
    assembly: Assembly,
    origins: Vec<Vec<NamedField>>,
) -> bool {
    &&& origins@.len() == assembly.records@.len()
    &&& forall|i: int|
        0 <= i < assembly.records@.len() ==> all_refer_below(
            properties_view((#[trigger] assembly.records@[i]).properties@),
            assembly.records@.len() as int,
        )
    &&& forall|k: int|
        0 <= k < assembly.functions@.len() ==> (#[trigger] assembly.functions@[k]).position
            < schema.functions@.len()
}

/// The generated module: under the given name, the imports, the records
/// in the catalog's order, their conversions in the same order, and an
/// inner module with the contract's headers, its version, and one accessor
/// for each function that compiled.  A function that failed has no
/// accessor and no record.
pub open spec fn module_text(
    name: Seq<char>,
    schema: Schema,
    assembly: Assembly,
    origins: Vec<Vec<NamedField>>,
) -> Seq<char> {
    "pub mod "@ + name
        + " { use anyhow::Result; use everscale_types::abi::{NamedAbiType, AbiType, WithAbiType, IntoAbi, IntoPlainAbi, FromAbiIter, FromAbi, AbiValue, NamedAbiValue}; use num_bigint::{BigInt, BigUint}; "@
        + models_text(assembly.records@, assembly.records@.len()) + impls_text(
        assembly.records@,
        origins@,
        assembly.records@.len(),
    )
        + "pub mod functions { use super::*; const HEADERS: [everscale_types::abi::AbiHeaderType; "@
        + decimal_text(schema.headers@.len()) + "] = ["@ + headers_text(
        schema.headers@,
        schema.headers@.len(),
    )
        + "]; const ABI_VERSION: everscale_types::abi::AbiVersion = <everscale_types::abi::AbiVersion>::new("@
        + decimal_text(schema.abi_version_major as nat) + ", "@ + decimal_text(
        schema.abi_version_minor as nat,
    ) + "); "@ + accessors_text(
        schema.functions@,
        assembly.functions@,
        assembly.functions@.len(),
    ) + "} }"@
}

/// Writes the headers of a contract.
fn quote_headers(headers: &Vec<HeaderKind>) -> (r: String)
    ensures
        r@ == headers_text(headers@, headers@.len()),
{
    let mut list = String::new();
    let mut i: usize = 0;
    while i < headers.len()
        invariant
            i <= headers.len(),
            list@ == headers_text(headers@, i as nat),
        decreases headers.len() - i,
    {
        let mut item = header_name(headers[i]).to_owned();
        item.append(",");
        list.append(item.as_str());
        proof {
            assert(list@ =~= headers_text(headers@, (i + 1) as nat));
        }
        i = i + 1;
    }
    list
}

/// Writes the definitions of the records of a catalog.
fn quote_models(records: &Vec<RecordDefinition>) -> (r: Option<String>)
    ensures
        match r {
            Some(text) => text@ == models_text(records@, records@.len()) && forall|i: int|
                0 <= i < records@.len() ==> all_refer_below(
                    properties_view((#[trigger] records@[i]).properties@),
                    records@.len() as int,
                ),
            None => exists|i: int|
                0 <= i < records@.len() && !all_refer_below(
                    properties_view((#[trigger] records@[i]).properties@),
                    records@.len() as int,
                ),
        },
{
    let mut list = String::new();
    let mut i: usize = 0;
    while i < records.len()
        invariant
            i <= records.len(),
            list@ == models_text(records@, i as nat),
            forall|k: int|
                0 <= k < i ==> all_refer_below(
                    properties_view((#[trigger] records@[k]).properties@),
                    records@.len() as int,
                ),
        decreases records.len() - i,
    {
        let record = &records[i];
        let mut item = match generate_model(record.name.as_str(), &record.properties, records) {
            Some(text) => text,
            None => {
                return None;
            },
        };
        item.append(" ");
        list.append(item.as_str());
        proof {
            assert(list@ =~= models_text(records@, (i + 1) as nat));
        }
        i = i + 1;
    }
    Some(list)
}

/// Writes the conversions of the records of a catalog.
fn quote_impls(records: &Vec<RecordDefinition>, origins: &Vec<Vec<NamedField>>) -> (r: String)
    requires
        origins@.len() == records@.len(),
    ensures
        r@ == impls_text(records@, origins@, records@.len()),
{
    let writer = TraitImplGen::new();
    let mut list = String::new();
    let mut i: usize = 0;
    while i < records.len()
        invariant
            i <= records.len(),
            origins@.len() == records@.len(),
            list@ == impls_text(records@, origins@, i as nat),
        decreases records.len() - i,
    {
        let mut item = writer.implement_traits(records[i].name.as_str(), &origins[i]);
        item.append(" ");
        list.append(item.as_str());
        proof {
            assert(list@ =~= impls_text(records@, origins@, (i + 1) as nat));
        }
        i = i + 1;
    }
    list
}

/// Writes the accessors of the functions that compiled.
fn quote_accessors(functions: &Vec<SchemaFunction>, descriptors: &Vec<FunctionDescriptor>) -> (r:
    Option<String>)
    ensures
        match r {
            Some(text) => text@ == accessors_text(functions@, descriptors@, descriptors@.len())
                && forall|k: int|
                0 <= k < descriptors@.len() ==> (#[trigger] descriptors@[k]).position
                    < functions@.len(),
            None => exists|k: int|
                0 <= k < descriptors@.len() && (#[trigger] descriptors@[k]).position
                    >= functions@.len(),
        },
{
    let mut list = String::new();
    let mut i: usize = 0;
    while i < descriptors.len()
        invariant
            i <= descriptors.len(),
            list@ == accessors_text(functions@, descriptors@, i as nat),
            forall|k: int| 0 <= k < i ==> (#[trigger] descriptors@[k]).position < functions@.len(),
        decreases descriptors.len() - i,
    {
        let position = descriptors[i].position;
        if position >= functions.len() {
            return None;
        }
        let mut item = generate_func_body(&functions[position]);
        item.append(" ");
        list.append(item.as_str());
        proof {
            assert(list@ =~= accessors_text(functions@, descriptors@, (i + 1) as nat));
        }
        i = i + 1;
    }
    Some(list)
}

/// Writes the generated module of an assembled schema, with the
/// conversions of each record written for the field list given for it.
/// There is a text exactly where the module is writable.
pub fn generate_module(
    name: &str,
    schema: &Schema,
    assembly: &Assembly,
    origins: &Vec<Vec<NamedField>>,
) -> (r: Option<String>)
    ensures
        match r {
            Some(text) => module_writable(*schema, *assembly, *origins) && text@ == module_text(
                name@,
                *schema,
                *assembly,
                *origins,
            ),
            None => !module_writable(*schema, *assembly, *origins),
        },
{
    if origins.len() != assembly.records.len() {
        return None;
    }
    let models = match quote_models(&assembly.records) {
        Some(text) => text,
        None => {
            return None;
        },
    };
    let accessors = match quote_accessors(&schema.functions, &assembly.functions) {
        Some(text) => text,
        None => {
            return None;
        },
    };
    let mut out = "pub mod ".to_owned();
    out.append(name);
    out.append(
        " { use anyhow::Result; use everscale_types::abi::{NamedAbiType, AbiType, WithAbiType, IntoAbi, IntoPlainAbi, FromAbiIter, FromAbi, AbiValue, NamedAbiValue}; use num_bigint::{BigInt, BigUint}; ",
    );
    out.append(models.as_str());
    out.append(quote_impls(&assembly.records, origins).as_str());
    out.append(
        "pub mod functions { use super::*; const HEADERS: [everscale_types::abi::AbiHeaderType; ",
    );
    out.append(decimal(schema.headers.len() as u64).as_str());
    out.append("] = [");
    out.append(quote_headers(&schema.headers).as_str());
    out.append(
        "]; const ABI_VERSION: everscale_types::abi::AbiVersion = <everscale_types::abi::AbiVersion>::new(",
    );
    out.append(decimal(schema.abi_version_major as u64).as_str());
    out.append(", ");
    out.append(decimal(schema.abi_version_minor as u64).as_str());
    out.append("); ");
    out.append(accessors.as_str());
    out.append("} }");
    Some(out)
}

/// An assembled schema can always be written: where the catalog is well
/// formed, there is one field list per record and every descriptor's
/// position is one of the schema's functions, the module is writable.
pub proof fn lemma_assembled_module_is_writable(
    schema: Schema,
    assembly: Assembly,
    origins: Vec<Vec<NamedField>>,
)
    requires
        catalog_wf(records_view(assembly.records@)),
        origins@.len() == assembly.records@.len(),
        forall|k: int|
            0 <= k < assembly.functions@.len() ==> (#[trigger] assembly.functions@[k]).position
                < schema.functions@.len(),
    ensures
        module_writable(schema, assembly, origins),
{
    let catalog = records_view(assembly.records@);
    assert forall|i: int| 0 <= i < assembly.records@.len() implies all_refer_below(
        properties_view((#[trigger] assembly.records@[i]).properties@),
        assembly.records@.len() as int,
    ) by {
        lemma_records_refer_inside(catalog, i);
        assert(catalog[i].properties == properties_view(assembly.records@[i].properties@));
    }
}

} // verus!
