//! Laws of the type compiler, proved from its specification.

use vstd::prelude::*;
use crate::catalog::{find_shape, pick_name, resolve, RecordView};
use crate::compiler::{
    compile_record_spec, compile_spec, display_base, emit_record, expand, expand_fields,
    expand_record, name_or_empty, CompileErrorKind, CompileErrorView, Outcome,
};
use crate::native::NativeType;
use crate::schema::{plain_key, NamedField, SchemaTypeNode};
use crate::shape::{field_shapes, shape_of, Shape};

verus! {

/// A type whose shape the catalog already holds compiles to what the
/// catalog holds for it, under any name and path, and emits nothing.
pub proof fn lemma_held_shape_compiles_in_place(
    catalog: Seq<RecordView>,
    path: Seq<char>,
    trail: Seq<char>,
    name: Option<Seq<char>>,
    node: SchemaTypeNode,
)
    requires
        resolve(catalog, shape_of(node)) is Some,
    ensures
        expand(catalog, path, trail, name, node) == (Outcome {
            catalog,
            result: Ok(resolve(catalog, shape_of(node))->Some_0),
        }),
    decreases node,
{
    match node {
        SchemaTypeNode::Array(inner) => {
            lemma_held_shape_compiles_in_place(catalog, path, trail, None, *inner);
        },
        SchemaTypeNode::FixedArray(inner, _) => {
            lemma_held_shape_compiles_in_place(catalog, path, trail, None, *inner);
        },
        SchemaTypeNode::Optional(inner) => {
            lemma_held_shape_compiles_in_place(catalog, path, trail, None, *inner);
        },
        SchemaTypeNode::Mapping(_, value) => {
            lemma_held_shape_compiles_in_place(catalog, path, trail, None, *value);
        },
        SchemaTypeNode::Ref(inner) => {
            lemma_held_shape_compiles_in_place(catalog, path, trail, name, *inner);
        },
        SchemaTypeNode::Tuple(fields) => {
            let base = display_base(path, name);
            assert(expand(catalog, path, trail, name, node) == expand_record(
                catalog,
                path,
                trail,
                base,
                fields,
            ));
        },
        _ => {},
    }
}

/// After a field list compiled into a record, a lookup of its shape finds
/// that record.
pub proof fn lemma_compiled_record_is_found(
    catalog: Seq<RecordView>,
    path: Seq<char>,
    trail: Seq<char>,
    base: Seq<char>,
    fields: Vec<NamedField>,
)
    requires
        expand_record(catalog, path, trail, base, fields).result is Ok,
    ensures
        match find_shape(
            expand_record(catalog, path, trail, base, fields).catalog,
            Shape::Tuple(field_shapes(fields)),
        ) {
            Some(i) => expand_record(catalog, path, trail, base, fields).result == Ok::<
                NativeType,
                CompileErrorView,
            >(NativeType::Record(i as usize)),
            None => false,
        },
{
    let key = Shape::Tuple(field_shapes(fields));
    if find_shape(catalog, key) is None {
        let sub = expand_fields(catalog, base, trail, fields, fields@.len());
        let properties = sub.result->Ok_0;
        let out = emit_record(sub.catalog, path, base, key, properties);
        assert(expand_record(catalog, path, trail, base, fields) == out);
        if find_shape(sub.catalog, key) is None {
            let chosen = pick_name(sub.catalog, path, base)->Some_0;
            let record = RecordView { name: chosen, shape: key, properties };
            assert(out.catalog == sub.catalog.push(record));
            assert(out.catalog.drop_last() =~= sub.catalog);
        }
    }
}

/// Deduplication between functions: once a field list has compiled into a
/// record, every field list with the same ordered field types, whatever
/// its field names and the display name it asks for, compiles to that same
/// record and emits nothing.
pub proof fn lemma_equal_field_lists_share_a_record(
    catalog: Seq<RecordView>,
    first_base: Seq<char>,
    first: Vec<NamedField>,
    second_base: Seq<char>,
    second: Vec<NamedField>,
)
    requires
        field_shapes(first) == field_shapes(second),
        compile_record_spec(catalog, first_base, first).result is Ok,
    ensures
        compile_record_spec(
            compile_record_spec(catalog, first_base, first).catalog,
            second_base,
            second,
        ) == compile_record_spec(catalog, first_base, first),
{
    lemma_compiled_record_is_found(catalog, Seq::empty(), first_base, first_base, first);
}

/// After a type compiled, the catalog holds its shape, and holds for it the
/// compiled type that the compilation gave.
pub proof fn lemma_compiled_shape_is_held(
    catalog: Seq<RecordView>,
    path: Seq<char>,
    trail: Seq<char>,
    name: Option<Seq<char>>,
    node: SchemaTypeNode,
)
    requires
        expand(catalog, path, trail, name, node).result is Ok,
    ensures
        resolve(expand(catalog, path, trail, name, node).catalog, shape_of(node)) == Some(
            expand(catalog, path, trail, name, node).result->Ok_0,
        ),
    decreases node,
{
    match node {
        SchemaTypeNode::Tuple(fields) => {
            let base = display_base(path, name);
            assert(expand(catalog, path, trail, name, node) == expand_record(
                catalog,
                path,
                trail,
                base,
                fields,
            ));
            lemma_compiled_record_is_found(catalog, path, trail, base, fields);
        },
        SchemaTypeNode::Array(inner) => {
            lemma_compiled_shape_is_held(catalog, path, trail, None, *inner);
        },
        SchemaTypeNode::FixedArray(inner, _) => {
            lemma_compiled_shape_is_held(catalog, path, trail, None, *inner);
        },
        SchemaTypeNode::Optional(inner) => {
            lemma_compiled_shape_is_held(catalog, path, trail, None, *inner);
        },
        SchemaTypeNode::Mapping(_, value) => {
            lemma_compiled_shape_is_held(catalog, path, trail, None, *value);
        },
        SchemaTypeNode::Ref(inner) => {
            lemma_compiled_shape_is_held(catalog, path, trail, name, *inner);
        },
        _ => {},
    }
}

/// Deduplication: once a type has compiled, every type of the same shape,
/// whatever its field names and the name it is compiled under, compiles to
/// the same compiled type and emits no further record.
pub proof fn lemma_equal_shapes_share_records(
    catalog: Seq<RecordView>,
    first_name: Option<Seq<char>>,
    first: SchemaTypeNode,
    second_name: Option<Seq<char>>,
    second: SchemaTypeNode,
)
    requires
        shape_of(first) == shape_of(second),
        compile_spec(catalog, first_name, first).result is Ok,
    ensures
        compile_spec(compile_spec(catalog, first_name, first).catalog, second_name, second)
            == compile_spec(catalog, first_name, first),
{
    let after = compile_spec(catalog, first_name, first);
    lemma_compiled_shape_is_held(catalog, Seq::empty(), name_or_empty(first_name), first_name, first);
    lemma_held_shape_compiles_in_place(
        after.catalog,
        Seq::empty(),
        name_or_empty(second_name),
        second_name,
        second,
    );
}

/// Reference transparency: a reference has the shape of what it refers to
/// and compiles exactly as that does, from every catalog.
pub proof fn lemma_reference_is_transparent(
    catalog: Seq<RecordView>,
    name: Option<Seq<char>>,
    inner: SchemaTypeNode,
)
    ensures
        shape_of(SchemaTypeNode::Ref(Box::new(inner))) == shape_of(inner),
        compile_spec(catalog, name, SchemaTypeNode::Ref(Box::new(inner))) == compile_spec(
            catalog,
            name,
            inner,
        ),
{
}

/// A mapping keyed by anything but an integer or an address does not
/// compile, whatever it maps to; the failure names the key's tag and the
/// field, and leaves the catalog as it was.
pub proof fn lemma_map_key_restriction(
    catalog: Seq<RecordView>,
    name: Option<Seq<char>>,
    node: SchemaTypeNode,
)
    requires
        node is Mapping,
        !plain_key(node->Mapping_0),
    ensures
        compile_spec(catalog, name, node).catalog == catalog,
        compile_spec(catalog, name, node).result is Err,
        compile_spec(catalog, name, node).result->Err_0.kind == CompileErrorKind::UnsupportedMapKey(
            node->Mapping_0,
        ),
        compile_spec(catalog, name, node).result->Err_0.subject == name_or_empty(name),
{
}

/// Field order: where the first `count` fields of a list compile, there is
/// one property for each, in the fields' order and under the fields' names.
pub proof fn lemma_fields_keep_order(
    catalog: Seq<RecordView>,
    path: Seq<char>,
    trail: Seq<char>,
    fields: Vec<NamedField>,
    count: nat,
)
    requires
        count <= fields@.len(),
        expand_fields(catalog, path, trail, fields, count).result is Ok,
    ensures
        expand_fields(catalog, path, trail, fields, count).result->Ok_0.len() == count,
        forall|k: int|
            0 <= k < count ==> (#[trigger] expand_fields(
                catalog,
                path,
                trail,
                fields,
                count,
            ).result->Ok_0[k]).wire_name == fields@[k].name@,
    decreases count,
{
    if count > 0 {
        lemma_fields_keep_order(catalog, path, trail, fields, (count - 1) as nat);
    }
}

} // verus!
