//! The record catalog: the records emitted so far, looked up by shape and
//! by name.

use vstd::prelude::*;
use crate::native::{lemma_refers_below_grows, native_repr_of, refers_below, NativeType};
use crate::schema::plain_key;
use crate::shape::{Shape, ShapeKey};

verus! {

/// One compiled field of a record.
#[derive(Debug)]
pub struct StructProperty {
    /// The field's name in the schema, which is its name on the wire.
    pub wire_name: String,
    pub native: NativeType,
    /// Whether the field's type is anything but a primitive.
    pub is_composite: bool,
}

/// Model of a [`StructProperty`].
pub ghost struct PropertyView {
    pub wire_name: Seq<char>,
    pub native: NativeType,
    pub is_composite: bool,
}

impl View for StructProperty {
    type V = PropertyView;

    open spec fn view(&self) -> PropertyView {
        PropertyView {
            wire_name: self.wire_name@,
            native: self.native,
            is_composite: self.is_composite,
        }
    }
}

/// A generated record: its unique name, the tuple shape it was emitted for,
/// and its fields in schema order.
#[derive(Debug)]
pub struct RecordDefinition {
    pub name: String,
    pub shape: ShapeKey,
    pub properties: Vec<StructProperty>,
}

/// Model of a [`RecordDefinition`].
pub ghost struct RecordView {
    pub name: Seq<char>,
    pub shape: Shape,
    pub properties: Seq<PropertyView>,
}

impl View for RecordDefinition {
    type V = RecordView;

    open spec fn view(&self) -> RecordView {
        RecordView {
            name: self.name@,
            shape: self.shape@,
            properties: self.properties@.map_values(|p: StructProperty| p@),
        }
    }
}

/// The model of a list of records.
pub open spec fn records_view(records: Seq<RecordDefinition>) -> Seq<RecordView> {
    records.map_values(|r: RecordDefinition| r@)
}

/// The position of the first record emitted for a shape, if there is one.
pub open spec fn find_shape(catalog: Seq<RecordView>, key: Shape) -> Option<int>
    decreases catalog.len(),
{
    if catalog.len() == 0 {
        None
    } else {
        match find_shape(catalog.drop_last(), key) {
            Some(i) => Some(i),
            None => if catalog.last().shape == key {
                Some(catalog.len() - 1)
            } else {
                None
            },
        }
    }
}

/// Whether some record of the catalog carries the name.
pub open spec fn name_taken(catalog: Seq<RecordView>, name: Seq<char>) -> bool {
    exists|i: int| 0 <= i < catalog.len() && (#[trigger] catalog[i]).name == name
}

/// The name under which a new record is emitted: its display name where
/// that is free, else the display name qualified by the enclosing path where
/// that is free, else none.
pub open spec fn pick_name(catalog: Seq<RecordView>, path: Seq<char>, base: Seq<char>) -> Option<
    Seq<char>,
> {
    if !name_taken(catalog, base) {
        Some(base)
    } else if !name_taken(catalog, path + base) {
        Some(path + base)
    } else {
        None
    }
}

/// The compiled type that a catalog holds for a shape, where it holds one:
/// the record emitted for a tuple shape, the table's entry for an atom, and
/// the wrapper around what the catalog holds for a wrapper's content.
pub open spec fn resolve(catalog: Seq<RecordView>, shape: Shape) -> Option<NativeType>
    decreases shape,
{
    match shape {
        Shape::Atom(tag) => Some(NativeType::Primitive(native_repr_of(tag))),
        Shape::Tuple(_) => match find_shape(catalog, shape) {
            Some(i) => Some(NativeType::Record(i as usize)),
            None => None,
        },
        Shape::Array(inner) => match resolve(catalog, *inner) {
            Some(ty) => Some(NativeType::Sequence(Box::new(ty))),
            None => None,
        },
        Shape::FixedArray(inner, _) => match resolve(catalog, *inner) {
            Some(ty) => Some(NativeType::Sequence(Box::new(ty))),
            None => None,
        },
        Shape::Optional(inner) => match resolve(catalog, *inner) {
            Some(ty) => Some(NativeType::Nullable(Box::new(ty))),
            None => None,
        },
        Shape::Mapping(tag, value) => if plain_key(tag) {
            match resolve(catalog, *value) {
                Some(ty) => Some(
                    NativeType::Mapping(
                        Box::new(NativeType::Primitive(native_repr_of(tag))),
                        Box::new(ty),
                    ),
                ),
                None => None,
            }
        } else {
            None
        },
    }
}

/// The catalog's invariant: no two records share a name or a shape, every
/// record stands for a tuple shape with one property per child, a property
/// refers only to records emitted before its own, and its compiled type is
/// the one that the catalog holds for the child's shape.
pub open spec fn catalog_wf(catalog: Seq<RecordView>) -> bool {
    &&& forall|i: int, j: int|
        0 <= i < j < catalog.len() ==> (#[trigger] catalog[i]).name != (#[trigger] catalog[j]).name
    &&& forall|i: int, j: int|
        0 <= i < j < catalog.len() ==> (#[trigger] catalog[i]).shape != (
        #[trigger] catalog[j]).shape
    &&& forall|i: int|
        0 <= i < catalog.len() ==> record_wf(#[trigger] catalog[i], i) && record_coherent(
            catalog,
            catalog[i],
        )
}

/// Whether every property of a record has the compiled type that the
/// catalog holds for the shape of its field.
pub open spec fn record_coherent(catalog: Seq<RecordView>, record: RecordView) -> bool {
    forall|k: int|
        0 <= k < record.properties.len() ==> resolve(catalog, record.shape->Tuple_0[k]) == Some(
            (#[trigger] record.properties[k]).native,
        )
}

/// What holds of the record at position `index`.
pub open spec fn record_wf(record: RecordView, index: int) -> bool {
    &&& record.shape is Tuple
    &&& record.shape->Tuple_0.len() == record.properties.len()
    &&& forall|k: int|
        0 <= k < record.properties.len() ==> property_wf(#[trigger] record.properties[k], index)
}

/// What holds of a property of the record at position `index`.
pub open spec fn property_wf(property: PropertyView, index: int) -> bool {
    &&& refers_below(property.native, index)
    &&& property.is_composite == !(property.native is Primitive)
}

/// What a lookup finds is a position of the catalog.
pub proof fn lemma_find_in_range(catalog: Seq<RecordView>, key: Shape)
    ensures
        find_shape(catalog, key) matches Some(i) ==> 0 <= i < catalog.len(),
    decreases catalog.len(),
{
    if catalog.len() > 0 {
        lemma_find_in_range(catalog.drop_last(), key);
    }
}

/// A lookup that finds a record finds the same one after more records were
/// emitted.
pub proof fn lemma_find_in_extension(catalog: Seq<RecordView>, longer: Seq<RecordView>, key: Shape)
    requires
        catalog.len() <= longer.len(),
        longer.take(catalog.len() as int) == catalog,
        find_shape(catalog, key) is Some,
    ensures
        find_shape(longer, key) == find_shape(catalog, key),
    decreases longer.len(),
{
    if longer.len() == catalog.len() {
        assert(longer =~= longer.take(catalog.len() as int));
    } else {
        assert(longer.drop_last().take(catalog.len() as int) =~= longer.take(catalog.len() as int));
        lemma_find_in_extension(catalog, longer.drop_last(), key);
    }
}

/// A lookup that finds a record among the first `len` finds the same one
/// in the catalog cut back to them.
pub proof fn lemma_find_in_prefix(catalog: Seq<RecordView>, len: int, key: Shape)
    requires
        0 <= len <= catalog.len(),
        find_shape(catalog, key) matches Some(i) && i < len,
    ensures
        find_shape(catalog.take(len), key) == find_shape(catalog, key),
    decreases catalog.len(),
{
    if len == catalog.len() {
        assert(catalog.take(len) =~= catalog);
    } else {
        assert(catalog.drop_last().take(len) =~= catalog.take(len));
        lemma_find_in_prefix(catalog.drop_last(), len, key);
    }
}

/// What the catalog holds for a shape, it still holds after more records
/// were emitted.
pub proof fn lemma_resolve_in_extension(
    catalog: Seq<RecordView>,
    longer: Seq<RecordView>,
    shape: Shape,
)
    requires
        catalog.len() <= longer.len(),
        longer.take(catalog.len() as int) == catalog,
        resolve(catalog, shape) is Some,
    ensures
        resolve(longer, shape) == resolve(catalog, shape),
    decreases shape,
{
    match shape {
        Shape::Atom(_) => {},
        Shape::Tuple(_) => lemma_find_in_extension(catalog, longer, shape),
        Shape::Array(inner) => lemma_resolve_in_extension(catalog, longer, *inner),
        Shape::FixedArray(inner, _) => lemma_resolve_in_extension(catalog, longer, *inner),
        Shape::Optional(inner) => lemma_resolve_in_extension(catalog, longer, *inner),
        Shape::Mapping(_, value) => lemma_resolve_in_extension(catalog, longer, *value),
    }
}

/// What the catalog holds for a shape and refers only to the first `len`
/// records, the catalog cut back to them holds as well.
pub proof fn lemma_resolve_in_prefix(catalog: Seq<RecordView>, len: int, shape: Shape)
    requires
        0 <= len <= catalog.len() <= usize::MAX,
        resolve(catalog, shape) matches Some(ty) && refers_below(ty, len),
    ensures
        resolve(catalog.take(len), shape) == resolve(catalog, shape),
    decreases shape,
{
    match shape {
        Shape::Atom(_) => {},
        Shape::Tuple(_) => {
            lemma_find_in_range(catalog, shape);
            lemma_find_in_prefix(catalog, len, shape);
        },
        Shape::Array(inner) => lemma_resolve_in_prefix(catalog, len, *inner),
        Shape::FixedArray(inner, _) => lemma_resolve_in_prefix(catalog, len, *inner),
        Shape::Optional(inner) => lemma_resolve_in_prefix(catalog, len, *inner),
        Shape::Mapping(_, value) => lemma_resolve_in_prefix(catalog, len, *value),
    }
}

/// A catalog cut back to its first records keeps the invariant.
pub proof fn lemma_prefix_wf(catalog: Seq<RecordView>, len: int)
    requires
        catalog_wf(catalog),
        0 <= len <= catalog.len() <= usize::MAX,
    ensures
        catalog_wf(catalog.take(len)),
{
    let cut = catalog.take(len);
    assert forall|i: int| 0 <= i < cut.len() implies record_wf(#[trigger] cut[i], i)
        && record_coherent(cut, cut[i]) by {
        let record = catalog[i];
        assert(record_wf(record, i) && record_coherent(catalog, record));
        assert forall|k: int| 0 <= k < record.properties.len() implies resolve(
            cut,
            record.shape->Tuple_0[k],
        ) == Some((#[trigger] record.properties[k]).native) by {
            lemma_refers_below_grows(record.properties[k].native, i, len);
            lemma_resolve_in_prefix(catalog, len, record.shape->Tuple_0[k]);
        }
    }
}

/// A catalog with one more record keeps the invariant where the record has
/// a new name and a new shape, is well formed at its position, and has the
/// compiled types that the catalog holds for the shapes of its fields.
pub proof fn lemma_push_wf(catalog: Seq<RecordView>, record: RecordView)
    requires
        catalog_wf(catalog),
        !name_taken(catalog, record.name),
        find_shape(catalog, record.shape) is None,
        record_wf(record, catalog.len() as int),
        record_coherent(catalog, record),
    ensures
        catalog_wf(catalog.push(record)),
{
    let longer = catalog.push(record);
    assert(longer.take(catalog.len() as int) =~= catalog);
    lemma_find_none_means_absent(catalog, record.shape);
    assert forall|i: int| 0 <= i < longer.len() implies record_wf(#[trigger] longer[i], i)
        && record_coherent(longer, longer[i]) by {
        let item = longer[i];
        if i < catalog.len() {
            assert(item == catalog[i]);
            assert(record_wf(item, i) && record_coherent(catalog, item));
        }
        assert forall|k: int| 0 <= k < item.properties.len() implies resolve(
            longer,
            item.shape->Tuple_0[k],
        ) == Some((#[trigger] item.properties[k]).native) by {
            lemma_resolve_in_extension(catalog, longer, item.shape->Tuple_0[k]);
        }
    }
    assert forall|i: int, j: int| 0 <= i < j < longer.len() implies (#[trigger] longer[i]).name
        != (#[trigger] longer[j]).name by {
        if j == catalog.len() {
            assert(catalog[i].name != record.name);
        } else {
            assert(catalog[i].name != catalog[j].name);
        }
    }
    assert forall|i: int, j: int| 0 <= i < j < longer.len() implies (#[trigger] longer[i]).shape
        != (#[trigger] longer[j]).shape by {
        if j == catalog.len() {
            assert(catalog[i].shape != record.shape);
        } else {
            assert(catalog[i].shape != catalog[j].shape);
        }
    }
}

/// What a lookup finds is a record with the shape.
pub proof fn lemma_find_is_a_match(catalog: Seq<RecordView>, key: Shape)
    ensures
        find_shape(catalog, key) matches Some(i) ==> 0 <= i < catalog.len() && catalog[i].shape
            == key,
    decreases catalog.len(),
{
    if catalog.len() > 0 {
        lemma_find_is_a_match(catalog.drop_last(), key);
    }
}

/// A lookup that finds nothing means that no record has the shape.
pub proof fn lemma_find_none_means_absent(catalog: Seq<RecordView>, key: Shape)
    requires
        find_shape(catalog, key) is None,
    ensures
        forall|j: int| 0 <= j < catalog.len() ==> (#[trigger] catalog[j]).shape != key,
    decreases catalog.len(),
{
    if catalog.len() > 0 {
        lemma_find_none_means_absent(catalog.drop_last(), key);
        assert forall|j: int| 0 <= j < catalog.len() implies (#[trigger] catalog[j]).shape
            != key by {
            if j < catalog.len() - 1 {
                assert(catalog.drop_last()[j] == catalog[j]);
            }
        }
    }
}

/// Looks up the first record emitted for a shape.
pub fn find_record(records: &Vec<RecordDefinition>, key: &ShapeKey) -> (r: Option<usize>)
    ensures
        match r {
            Some(i) => find_shape(records_view(records@), key@) == Some(i as int) && i
                < records@.len() && records@[i as int]@.shape == key@,
            None => find_shape(records_view(records@), key@) is None && forall|j: int|
                0 <= j < records@.len() ==> (#[trigger] records@[j])@.shape != key@,
        },
{
    let ghost catalog = records_view(records@);
    let mut i: usize = 0;
    while i < records.len()
        invariant
            i <= records.len(),
            catalog == records_view(records@),
            forall|j: int| 0 <= j < i ==> (#[trigger] catalog[j]).shape != key@,
        decreases records.len() - i,
    {
        if records[i].shape.same(key) {
            proof {
                lemma_find_first(catalog, key@, i as int);
            }
            return Some(i);
        }
        i = i + 1;
    }
    proof {
        lemma_find_none(catalog, key@);
        assert forall|j: int| 0 <= j < records@.len() implies (#[trigger] records@[j])@.shape
            != key@ by {
            assert(catalog[j].shape != key@);
        }
    }
    None
}

/// The first record with a shape is the one that a lookup finds.
pub proof fn lemma_find_first(catalog: Seq<RecordView>, key: Shape, at: int)
    requires
        0 <= at < catalog.len(),
        catalog[at].shape == key,
        forall|j: int| 0 <= j < at ==> (#[trigger] catalog[j]).shape != key,
    ensures
        find_shape(catalog, key) == Some(at),
    decreases catalog.len(),
{
    if at < catalog.len() - 1 {
        lemma_find_first(catalog.drop_last(), key, at);
    } else {
        lemma_find_none(catalog.drop_last(), key);
    }
}

/// A lookup finds nothing where no record has the shape.
pub proof fn lemma_find_none(catalog: Seq<RecordView>, key: Shape)
    requires
        forall|j: int| 0 <= j < catalog.len() ==> (#[trigger] catalog[j]).shape != key,
    ensures
        find_shape(catalog, key) is None,
    decreases catalog.len(),
{
    if catalog.len() > 0 {
        lemma_find_none(catalog.drop_last(), key);
    }
}

} // verus!
