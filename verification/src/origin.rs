//! From the catalog back to schema types: the named fields that a record
//! stands for.

use vstd::prelude::*;
use crate::catalog::{
    catalog_wf, find_record, find_shape, lemma_find_first, lemma_find_in_range,
    lemma_find_is_a_match, record_coherent, record_wf, records_view, resolve, RecordDefinition,
    RecordView,
};
use crate::schema::{NamedField, PrimitiveTag, SchemaTypeNode};
use crate::shape::{field_shapes, shape_of, Shape, ShapeKey};

verus! {

/// Whether the catalog holds, for every tuple shape inside a shape, a
/// record with one property per child.
pub open spec fn covered(catalog: Seq<RecordView>, shape: Shape) -> bool
    decreases shape,
{
    match shape {
        Shape::Atom(_) => true,
        Shape::Tuple(children) => {
            &&& find_shape(catalog, shape) matches Some(i) && catalog[i].properties.len()
                == children.len()
            &&& forall|k: int| 0 <= k < children.len() ==> covered(catalog, #[trigger] children[k])
        },
        Shape::Array(inner) => covered(catalog, *inner),
        Shape::FixedArray(inner, _) => covered(catalog, *inner),
        Shape::Optional(inner) => covered(catalog, *inner),
        Shape::Mapping(_, value) => covered(catalog, *value),
    }
}

/// Whether every tuple inside a schema type carries, field by field, the
/// wire names of the record that the catalog holds for its shape.
pub open spec fn named_by(catalog: Seq<RecordView>, node: SchemaTypeNode) -> bool
    decreases node,
{
    match node {
        SchemaTypeNode::Tuple(fields) => {
            &&& find_shape(catalog, shape_of(node)) matches Some(i) && catalog[i].properties.len()
                == fields@.len()
            &&& forall|k: int|
                0 <= k < fields@.len() ==> (#[trigger] fields@[k]).name@ == catalog[find_shape(
                    catalog,
                    shape_of(node),
                )->Some_0].properties[k].wire_name && named_by(catalog, fields@[k].ty)
        },
        SchemaTypeNode::Array(inner) => named_by(catalog, *inner),
        SchemaTypeNode::FixedArray(inner, _) => named_by(catalog, *inner),
        SchemaTypeNode::Optional(inner) => named_by(catalog, *inner),
        SchemaTypeNode::Mapping(_, value) => named_by(catalog, *value),
        SchemaTypeNode::Ref(inner) => named_by(catalog, *inner),
        _ => true,
    }
}

/// The schema type of a primitive tag.
fn primitive_node(tag: PrimitiveTag) -> (node: SchemaTypeNode)
    ensures
        shape_of(node) == Shape::Atom(tag),
        !(node is Tuple || node is Array || node is FixedArray || node is Optional
            || node is Mapping || node is Ref),
{
    match tag {
        PrimitiveTag::UInt(w) => SchemaTypeNode::UInt(w),
        PrimitiveTag::Int(w) => SchemaTypeNode::Int(w),
        PrimitiveTag::VarUInt(w) => SchemaTypeNode::VarUInt(w),
        PrimitiveTag::VarInt(w) => SchemaTypeNode::VarInt(w),
        PrimitiveTag::Bool => SchemaTypeNode::Bool,
        PrimitiveTag::Cell => SchemaTypeNode::Cell,
        PrimitiveTag::Address => SchemaTypeNode::Address,
        PrimitiveTag::Bytes => SchemaTypeNode::Bytes,
        PrimitiveTag::FixedBytes(len) => SchemaTypeNode::FixedBytes(len),
        PrimitiveTag::String => SchemaTypeNode::String,
        PrimitiveTag::Token => SchemaTypeNode::Token,
    }
}

/// Builds a schema type of the given shape whose tuples carry the wire
/// names of the catalog's records.  There is one exactly where the catalog
/// covers the shape.
pub fn schema_type_of(shape: &ShapeKey, records: &Vec<RecordDefinition>) -> (r: Option<
    SchemaTypeNode,
>)
    ensures
        match r {
            Some(node) => covered(records_view(records@), shape@) && shape_of(node) == shape@
                && named_by(records_view(records@), node) && !(node is Ref),
            None => !covered(records_view(records@), shape@),
        },
    decreases *shape,
{
    let ghost catalog = records_view(records@);
    match shape {
        ShapeKey::Atom(tag) => Some(primitive_node(*tag)),
        ShapeKey::Tuple(children) => {
            let index = match find_record(records, shape) {
                Some(index) => index,
                None => {
                    return None;
                },
            };
            let record = &records[index];
            assert(catalog[index as int] == record@);
            if record.properties.len() != children.len() {
                return None;
            }
            let mut fields: Vec<NamedField> = Vec::new();
            let mut k: usize = 0;
            while k < children.len()
                invariant
                    k <= children.len(),
                    fields@.len() == k,
                    *shape == ShapeKey::Tuple(*children),
                    catalog == records_view(records@),
                    index < records@.len(),
                    record == &records@[index as int],
                    record.properties@.len() == children@.len(),
                    forall|j: int|
                        0 <= j < k ==> {
                            &&& shape_of((#[trigger] fields@[j]).ty) == children@[j]@
                            &&& covered(catalog, children@[j]@)
                            &&& named_by(catalog, fields@[j].ty)
                            &&& fields@[j].name@ == record.properties@[j].wire_name@
                        },
                decreases children.len() - k,
            {
                proof {
                    assert(decreases_to!(*shape => shape->Tuple_0@[k as int]));
                }
                let ty = match schema_type_of(&children[k], records) {
                    Some(ty) => ty,
                    None => {
                        assert(shape@->Tuple_0[k as int] == children@[k as int]@);
                        return None;
                    },
                };
                fields.push(NamedField { name: record.properties[k].wire_name.clone(), ty });
                k = k + 1;
            }
            let node = SchemaTypeNode::Tuple(fields);
            proof {
                assert(field_shapes(fields) =~= shape@->Tuple_0);
                assert(shape_of(node) == shape@);
                assert forall|j: int| 0 <= j < shape@->Tuple_0.len() implies covered(
                    catalog,
                    #[trigger] shape@->Tuple_0[j],
                ) by {
                    assert(shape@->Tuple_0[j] == children@[j]@);
                    assert(shape_of(fields@[j].ty) == children@[j]@);
                }
                assert(catalog[index as int].properties.len() == fields@.len());
                assert forall|j: int| 0 <= j < fields@.len() implies (#[trigger] fields@[j]).name@
                    == catalog[index as int].properties[j].wire_name && named_by(
                    catalog,
                    fields@[j].ty,
                ) by {
                    assert(catalog[index as int].properties[j] == record.properties@[j]@);
                }
            }
            Some(node)
        },
        ShapeKey::Array(inner) => match schema_type_of(inner, records) {
            Some(ty) => Some(SchemaTypeNode::Array(Box::new(ty))),
            None => None,
        },
        ShapeKey::FixedArray(inner, len) => match schema_type_of(inner, records) {
            Some(ty) => Some(SchemaTypeNode::FixedArray(Box::new(ty), *len)),
            None => None,
        },
        ShapeKey::Optional(inner) => match schema_type_of(inner, records) {
            Some(ty) => Some(SchemaTypeNode::Optional(Box::new(ty))),
            None => None,
        },
        ShapeKey::Mapping(tag, value) => match schema_type_of(value, records) {
            Some(ty) => Some(SchemaTypeNode::Mapping(*tag, Box::new(ty))),
            None => None,
        },
    }
}

/// The named fields that a record stands for: of the record's shape, under
/// the wire names of the catalog.  There are some exactly where the
/// record's shape is a tuple that the catalog covers.
pub fn schema_fields_of(record: &RecordDefinition, records: &Vec<RecordDefinition>) -> (r: Option<
    Vec<NamedField>,
>)
    ensures
        match r {
            Some(fields) => record@.shape is Tuple && covered(
                records_view(records@),
                record@.shape,
            ) && Shape::Tuple(field_shapes(fields)) == record@.shape && named_by(
                records_view(records@),
                SchemaTypeNode::Tuple(fields),
            ),
            None => !(record@.shape is Tuple && covered(records_view(records@), record@.shape)),
        },
{
    match &record.shape {
        ShapeKey::Tuple(_) => match schema_type_of(&record.shape, records) {
            Some(SchemaTypeNode::Tuple(fields)) => Some(fields),
            _ => None,
        },
        _ => None,
    }
}

/// In a well-formed catalog, a shape that the catalog holds a compiled
/// type for is covered.
pub proof fn lemma_held_shape_is_covered(catalog: Seq<RecordView>, shape: Shape)
    requires
        catalog_wf(catalog),
        resolve(catalog, shape) is Some,
    ensures
        covered(catalog, shape),
    decreases shape,
{
    match shape {
        Shape::Atom(_) => {},
        Shape::Tuple(children) => {
            lemma_find_in_range(catalog, shape);
            lemma_find_is_a_match(catalog, shape);
            let i = find_shape(catalog, shape)->Some_0;
            let record = catalog[i];
            assert(record_wf(record, i) && record_coherent(catalog, record));
            assert forall|k: int| 0 <= k < children.len() implies covered(
                catalog,
                #[trigger] children[k],
            ) by {
                assert(resolve(catalog, record.shape->Tuple_0[k]) == Some(
                    record.properties[k].native,
                ));
                lemma_held_shape_is_covered(catalog, children[k]);
            }
        },
        Shape::Array(inner) => lemma_held_shape_is_covered(catalog, *inner),
        Shape::FixedArray(inner, _) => lemma_held_shape_is_covered(catalog, *inner),
        Shape::Optional(inner) => lemma_held_shape_is_covered(catalog, *inner),
        Shape::Mapping(_, value) => lemma_held_shape_is_covered(catalog, *value),
    }
}

/// Every record of a well-formed catalog is covered by it, so its schema
/// fields can always be built.
pub proof fn lemma_records_are_covered(catalog: Seq<RecordView>, i: int)
    requires
        catalog_wf(catalog),
        0 <= i < catalog.len(),
    ensures
        catalog[i].shape is Tuple,
        covered(catalog, catalog[i].shape),
{
    let record = catalog[i];
    assert(record_wf(record, i) && record_coherent(catalog, record));
    lemma_find_first(catalog, record.shape, i);
    assert(resolve(catalog, record.shape) is Some);
    lemma_held_shape_is_covered(catalog, record.shape);
}

} // verus!
