//! The type compiler: expands schema types into compiled types and emits
//! one record per distinct tuple shape.

use vstd::prelude::*;
use vstd::string::*;
use crate::catalog::{
    catalog_wf, find_record, find_shape, lemma_prefix_wf, lemma_push_wf,
    lemma_resolve_in_extension, name_taken, pick_name, property_wf, resolve,
    record_wf, records_view, PropertyView, RecordDefinition, StructProperty, RecordView,
};
use crate::compiler_laws::lemma_compiled_shape_is_held;
use crate::naming::{camel_case_of, to_camel};
use crate::native::{lemma_refers_below_grows, native_repr_of, native_type_for, refers_below,
    NativeType};
use crate::schema::{is_plain_key, plain_key, NamedField, PrimitiveTag, SchemaTypeNode};
use crate::shape::{field_shapes, shape_of, tuple_shape_of, Shape, ShapeKey};

verus! {

/// Why a compilation failed.
#[derive(Clone, Copy, Debug, PartialEq, Eq, Structural)]
pub enum CompileErrorKind {
    /// A mapping is keyed by something other than an integer or an address;
    /// the tag is that of the key.
    UnsupportedMapKey(PrimitiveTag),
    /// Two functions of one schema carry the same name.
    DuplicateFunction,
    /// Two different shapes ask for the same record name, and the name
    /// qualified by the enclosing path is taken as well.
    ShapeCollision,
}

/// A failed compilation: the reason, and the field path or the record name
/// that it is about.
#[derive(Debug)]
pub struct CompileError {
    pub kind: CompileErrorKind,
    pub subject: String,
}

/// Model of a [`CompileError`].
pub ghost struct CompileErrorView {
    pub kind: CompileErrorKind,
    pub subject: Seq<char>,
}

impl View for CompileError {
    type V = CompileErrorView;

    open spec fn view(&self) -> CompileErrorView {
        CompileErrorView { kind: self.kind, subject: self.subject@ }
    }
}

/// What a compilation step leaves behind: the catalog after it, and the
/// compiled type or the failure.
pub ghost struct Outcome {
    pub catalog: Seq<RecordView>,
    pub result: Result<NativeType, CompileErrorView>,
}

/// What compiling a run of fields leaves behind.
pub ghost struct FieldsOutcome {
    pub catalog: Seq<RecordView>,
    pub result: Result<Seq<PropertyView>, CompileErrorView>,
}

/// The separator between the field names of a path.
pub open spec fn path_separator() -> Seq<char> {
    seq!['.']
}

/// The path of a field: the path of what encloses it, a separator, and the
/// field's name.
pub open spec fn field_trail(trail: Seq<char>, name: Seq<char>) -> Seq<char> {
    trail + path_separator() + name
}

/// The text of an optional name; an absent name is the empty text.
pub open spec fn name_or_empty(name: Option<Seq<char>>) -> Seq<char> {
    match name {
        Some(text) => text,
        None => Seq::empty(),
    }
}

/// The suffix that names a tuple compiled without a field name.
pub open spec fn item_suffix() -> Seq<char> {
    "Item"@
}

/// The display name that a tuple asks for: the camel-case form of its field
/// name where it has one, and otherwise the enclosing path followed by
/// `Item`.
pub open spec fn display_base(path: Seq<char>, name: Option<Seq<char>>) -> Seq<char> {
    match name {
        Some(text) => camel_case_of(text),
        None => path + item_suffix(),
    }
}

/// A compiled type under one more wrapper, or the failure unchanged.
pub open spec fn wrap_sequence(inner: Outcome) -> Outcome {
    match inner.result {
        Ok(ty) => Outcome { catalog: inner.catalog, result: Ok(NativeType::Sequence(Box::new(ty))) },
        Err(_) => inner,
    }
}

/// A compiled type made nullable, or the failure unchanged.
pub open spec fn wrap_nullable(inner: Outcome) -> Outcome {
    match inner.result {
        Ok(ty) => Outcome { catalog: inner.catalog, result: Ok(NativeType::Nullable(Box::new(ty))) },
        Err(_) => inner,
    }
}

/// A compiled value type under a mapping keyed by the tag's native type.
pub open spec fn wrap_mapping(tag: PrimitiveTag, inner: Outcome) -> Outcome {
    match inner.result {
        Ok(ty) => Outcome {
            catalog: inner.catalog,
            result: Ok(
                NativeType::Mapping(
                    Box::new(NativeType::Primitive(native_repr_of(tag))),
                    Box::new(ty),
                ),
            ),
        },
        Err(_) => inner,
    }
}

/// One compilation step on a schema type.
///
/// Primitives go through the type table.  A tuple becomes a record that
/// asks for the display name of [`display_base`].  Arrays
/// of either kind, optionals and mappings compile what they hold, without a
/// name, and wrap it; a mapping keyed by anything but an integer or an
/// address fails, and the failure names the key's tag and `trail`, the
/// path of field names from the root of the compilation down to the field
/// that holds the mapping.
/// A reference compiles as what it refers to.
pub open spec fn expand(
    catalog: Seq<RecordView>,
    path: Seq<char>,
    trail: Seq<char>,
    name: Option<Seq<char>>,
    node: SchemaTypeNode,
) -> Outcome
    decreases node, 0nat,
{
    match node {
        SchemaTypeNode::UInt(w) => primitive(catalog, PrimitiveTag::UInt(w)),
        SchemaTypeNode::Int(w) => primitive(catalog, PrimitiveTag::Int(w)),
        SchemaTypeNode::VarUInt(w) => primitive(catalog, PrimitiveTag::VarUInt(w)),
        SchemaTypeNode::VarInt(w) => primitive(catalog, PrimitiveTag::VarInt(w)),
        SchemaTypeNode::Bool => primitive(catalog, PrimitiveTag::Bool),
        SchemaTypeNode::Cell => primitive(catalog, PrimitiveTag::Cell),
        SchemaTypeNode::Address => primitive(catalog, PrimitiveTag::Address),
        SchemaTypeNode::Bytes => primitive(catalog, PrimitiveTag::Bytes),
        SchemaTypeNode::FixedBytes(len) => primitive(catalog, PrimitiveTag::FixedBytes(len)),
        SchemaTypeNode::String => primitive(catalog, PrimitiveTag::String),
        SchemaTypeNode::Token => primitive(catalog, PrimitiveTag::Token),
        SchemaTypeNode::Tuple(fields) => expand_record(
            catalog,
            path,
            trail,
            display_base(path, name),
            fields,
        ),
        SchemaTypeNode::Array(inner) => wrap_sequence(expand(catalog, path, trail, None, *inner)),
        SchemaTypeNode::FixedArray(inner, _) => wrap_sequence(expand(catalog, path, trail, None, *inner)),
        SchemaTypeNode::Optional(inner) => wrap_nullable(expand(catalog, path, trail, None, *inner)),
        SchemaTypeNode::Mapping(tag, value) => if plain_key(tag) {
            wrap_mapping(tag, expand(catalog, path, trail, None, *value))
        } else {
            Outcome {
                catalog,
                result: Err(
                    CompileErrorView {
                        kind: CompileErrorKind::UnsupportedMapKey(tag),
                        subject: trail,
                    },
                ),
            }
        },
        SchemaTypeNode::Ref(inner) => expand(catalog, path, trail, name, *inner),
    }
}

/// A primitive compiles to its entry of the type table and emits nothing.
pub open spec fn primitive(catalog: Seq<RecordView>, tag: PrimitiveTag) -> Outcome {
    Outcome { catalog, result: Ok(NativeType::Primitive(native_repr_of(tag))) }
}

/// One compilation step on a field list that asks for the display name
/// `base` inside the record path `path`.
///
/// Where a record was emitted for the list's shape, that record is the
/// result and nothing is emitted.  Otherwise the fields are compiled in
/// order, which may emit records for what they hold; then the record is
/// emitted under the name that [`pick_name`] gives, after all of those, and
/// the step fails where no name is free.
pub open spec fn expand_record(
    catalog: Seq<RecordView>,
    path: Seq<char>,
    trail: Seq<char>,
    base: Seq<char>,
    fields: Vec<NamedField>,
) -> Outcome
    decreases fields, fields@.len() + 1,
{
    let key = Shape::Tuple(field_shapes(fields));
    match find_shape(catalog, key) {
        Some(i) => Outcome { catalog, result: Ok(NativeType::Record(i as usize)) },
        None => {
            let sub = expand_fields(catalog, base, trail, fields, fields@.len());
            match sub.result {
                Err(e) => Outcome { catalog: sub.catalog, result: Err(e) },
                Ok(properties) => emit_record(sub.catalog, path, base, key, properties),
            }
        },
    }
}

/// Emits the record for a shape whose fields are compiled, unless one
/// stands there already.
pub open spec fn emit_record(
    catalog: Seq<RecordView>,
    path: Seq<char>,
    base: Seq<char>,
    key: Shape,
    properties: Seq<PropertyView>,
) -> Outcome {
    match find_shape(catalog, key) {
        Some(i) => Outcome { catalog, result: Ok(NativeType::Record(i as usize)) },
        None => match pick_name(catalog, path, base) {
            Some(name) => Outcome {
                catalog: catalog.push(RecordView { name, shape: key, properties }),
                result: Ok(NativeType::Record(catalog.len() as usize)),
            },
            None => Outcome {
                catalog,
                result: Err(
                    CompileErrorView { kind: CompileErrorKind::ShapeCollision, subject: path + base },
                ),
            },
        },
    }
}

/// Compiles the first `count` fields of a list in order, each under its own
/// name, inside the record path `path` and at the field path `trail`
/// followed by its name, and stops at the first failure.
pub open spec fn expand_fields(
    catalog: Seq<RecordView>,
    path: Seq<char>,
    trail: Seq<char>,
    fields: Vec<NamedField>,
    count: nat,
) -> FieldsOutcome
    decreases fields, count,
{
    if count == 0 || count > fields@.len() {
        FieldsOutcome { catalog, result: Ok(Seq::empty()) }
    } else {
        let before = expand_fields(catalog, path, trail, fields, (count - 1) as nat);
        match before.result {
            Err(_) => before,
            Ok(properties) => {
                let field = fields@[count - 1];
                let step = expand(
                    before.catalog,
                    path,
                    field_trail(trail, field.name@),
                    Some(field.name@),
                    field.ty,
                );
                match step.result {
                    Err(e) => FieldsOutcome { catalog: step.catalog, result: Err(e) },
                    Ok(ty) => FieldsOutcome {
                        catalog: step.catalog,
                        result: Ok(
                            properties.push(
                                PropertyView {
                                    wire_name: field.name@,
                                    native: ty,
                                    is_composite: !(ty is Primitive),
                                },
                            ),
                        ),
                    },
                }
            },
        }
    }
}

/// Compiling a schema type from the outside: the step of [`expand`] at the
/// top of the path, made atomic.  The field path starts at the given name.
/// A failure leaves the catalog as it was.
pub open spec fn compile_spec(
    catalog: Seq<RecordView>,
    name: Option<Seq<char>>,
    node: SchemaTypeNode,
) -> Outcome {
    let step = expand(catalog, Seq::empty(), name_or_empty(name), name, node);
    match step.result {
        Ok(_) => step,
        Err(_) => Outcome { catalog, result: step.result },
    }
}

/// Compiling a field list into a record from the outside, made atomic.  The
/// field path starts at the record's display name.
pub open spec fn compile_record_spec(
    catalog: Seq<RecordView>,
    base: Seq<char>,
    fields: Vec<NamedField>,
) -> Outcome {
    let step = expand_record(catalog, Seq::empty(), base, base, fields);
    match step.result {
        Ok(_) => step,
        Err(_) => Outcome { catalog, result: step.result },
    }
}

/// The model of a compilation result.
pub open spec fn result_view(r: Result<NativeType, CompileError>) -> Result<
    NativeType,
    CompileErrorView,
> {
    match r {
        Ok(ty) => Ok(ty),
        Err(e) => Err(e@),
    }
}

/// A record's position as a compiled type.
pub open spec fn record_result(r: Result<usize, CompileError>) -> Result<NativeType, CompileError> {
    match r {
        Ok(index) => Ok(NativeType::Record(index)),
        Err(e) => Err(e),
    }
}

/// The model of an optional name.
pub open spec fn name_view(name: Option<&str>) -> Option<Seq<char>> {
    match name {
        Some(text) => Some(text@),
        None => None,
    }
}


/// What an execution of a compilation step owes to its specification: the
/// catalog and the result are those of the outcome, the catalog kept its
/// invariant and only grew at its end, and the compiled type refers to
/// records that are there.
pub open spec fn step_meets(
    before: Seq<RecordView>,
    after: Seq<RecordView>,
    r: Result<NativeType, CompileError>,
    outcome: Outcome,
) -> bool {
    &&& catalog_wf(after)
    &&& before.len() <= after.len()
    &&& after.take(before.len() as int) == before
    &&& after == outcome.catalog
    &&& result_view(r) == outcome.result
    &&& (r matches Ok(ty) ==> refers_below(ty, after.len() as int))
}

/// Once a field fails, compiling more fields changes nothing.
pub proof fn lemma_failure_sticks(
    catalog: Seq<RecordView>,
    path: Seq<char>,
    trail: Seq<char>,
    fields: Vec<NamedField>,
    at: nat,
    count: nat,
)
    requires
        expand_fields(catalog, path, trail, fields, at).result is Err,
        at <= count <= fields@.len(),
    ensures
        expand_fields(catalog, path, trail, fields, count) == expand_fields(
            catalog,
            path,
            trail,
            fields,
            at,
        ),
    decreases count,
{
    if at < count {
        lemma_failure_sticks(catalog, path, trail, fields, at, (count - 1) as nat);
    }
}

/// The compiler's state during one pass: the record catalog, which also
/// serves as the cache from tuple shapes to records.
pub struct TypeCompiler {
    records: Vec<RecordDefinition>,
}

impl View for TypeCompiler {
    type V = Seq<RecordView>;

    closed spec fn view(&self) -> Seq<RecordView> {
        records_view(self.records@)
    }
}

impl TypeCompiler {
    /// The catalog's invariant.
    pub open spec fn wf(&self) -> bool {
        catalog_wf(self@)
    }

    /// A compiler with an empty catalog.
    pub fn new() -> (r: Self)
        ensures
            r@ == Seq::<RecordView>::empty(),
            r.wf(),
    {
        let r = TypeCompiler { records: Vec::new() };
        assert(r@ =~= Seq::<RecordView>::empty());
        r
    }

    /// The records emitted so far, in the order of their emission.
    pub fn catalog(&self) -> (r: &Vec<RecordDefinition>)
        ensures
            records_view(r@) == self@,
    {
        &self.records
    }

    /// The number of records emitted so far.
    pub fn len(&self) -> (r: usize)
        ensures
            r == self@.len(),
    {
        self.records.len()
    }

    /// Cuts the catalog back to its first `len` records.
    pub fn rewind(&mut self, len: usize)
        requires
            old(self).wf(),
            len <= old(self)@.len(),
        ensures
            final(self).wf(),
            final(self)@ == old(self)@.take(len as int),
    {
        let ghost grown = self@;
        let n = self.records.len();
        self.records.truncate(len);
        proof {
            assert(self@ =~= grown.take(len as int));
            lemma_prefix_wf(grown, len as int);
        }
    }

    /// Ends the pass and hands over the catalog.
    pub fn into_catalog(self) -> (r: Vec<RecordDefinition>)
        ensures
            records_view(r@) == self@,
    {
        self.records
    }

    /// The position of the record emitted for a shape, if there is one.
    pub fn lookup(&self, key: &ShapeKey) -> (r: Option<usize>)
        ensures
            match r {
                Some(i) => find_shape(self@, key@) == Some(i as int) && i < self@.len()
                    && self@[i as int].shape == key@,
                None => find_shape(self@, key@) is None && forall|j: int|
                    0 <= j < self@.len() ==> (#[trigger] self@[j]).shape != key@,
            },
    {
        let r = find_record(&self.records, key);
        proof {
            if r is None {
                assert forall|j: int| 0 <= j < self@.len() implies (#[trigger] self@[j]).shape
                    != key@ by {
                    assert(self.records@[j]@.shape != key@);
                }
            }
        }
        r
    }

    /// Whether a record of the catalog carries the name.
    pub fn name_in_use(&self, name: &String) -> (r: bool)
        ensures
            r == name_taken(self@, name@),
    {
        let mut i: usize = 0;
        while i < self.records.len()
            invariant
                i <= self.records.len(),
                forall|j: int| 0 <= j < i ==> (#[trigger] self@[j]).name != name@,
            decreases self.records.len() - i,
        {
            if self.records[i].name == *name {
                assert(self@[i as int].name == name@);
                return true;
            }
            i = i + 1;
        }
        false
    }

    /// The name for a new record that asks for the display name `base`
    /// inside the path `path`: see [`pick_name`].
    pub fn choose_name(&self, path: &str, base: &str) -> (r: Option<String>)
        ensures
            match r {
                Some(name) => pick_name(self@, path@, base@) == Some(name@),
                None => pick_name(self@, path@, base@) is None,
            },
    {
        let plain = base.to_owned();
        if !self.name_in_use(&plain) {
            return Some(plain);
        }
        let qualified = path.to_owned().concat(base);
        if !self.name_in_use(&qualified) {
            return Some(qualified);
        }
        None
    }

    /// Runs one step of [`expand`] on the catalog.
    fn expand(
        &mut self,
        path: &str,
        trail: &str,
        name: Option<&str>,
        node: &SchemaTypeNode,
    ) -> (r: Result<NativeType, CompileError>)
        requires
            old(self).wf(),
        ensures
            step_meets(
                old(self)@,
                final(self)@,
                r,
                expand(old(self)@, path@, trail@, name_view(name), *node),
            ),
        decreases *node, 0nat,
    {
        match node {
            SchemaTypeNode::UInt(w) => self.table(PrimitiveTag::UInt(*w)),
            SchemaTypeNode::Int(w) => self.table(PrimitiveTag::Int(*w)),
            SchemaTypeNode::VarUInt(w) => self.table(PrimitiveTag::VarUInt(*w)),
            SchemaTypeNode::VarInt(w) => self.table(PrimitiveTag::VarInt(*w)),
            SchemaTypeNode::Bool => self.table(PrimitiveTag::Bool),
            SchemaTypeNode::Cell => self.table(PrimitiveTag::Cell),
            SchemaTypeNode::Address => self.table(PrimitiveTag::Address),
            SchemaTypeNode::Bytes => self.table(PrimitiveTag::Bytes),
            SchemaTypeNode::FixedBytes(len) => self.table(PrimitiveTag::FixedBytes(*len)),
            SchemaTypeNode::String => self.table(PrimitiveTag::String),
            SchemaTypeNode::Token => self.table(PrimitiveTag::Token),
            SchemaTypeNode::Tuple(fields) => {
                let base = match name {
                    Some(text) => to_camel(text),
                    None => path.to_owned().concat("Item"),
                };
                proof {
                    assert(decreases_to!(*node => node->Tuple_0));
                }
                match self.expand_record(path, trail, base.as_str(), fields) {
                    Ok(index) => Ok(NativeType::Record(index)),
                    Err(e) => Err(e),
                }
            },
            SchemaTypeNode::Array(inner) => match self.expand(path, trail, None, inner) {
                Ok(ty) => Ok(NativeType::Sequence(Box::new(ty))),
                Err(e) => Err(e),
            },
            SchemaTypeNode::FixedArray(inner, _) => match self.expand(path, trail, None, inner) {
                Ok(ty) => Ok(NativeType::Sequence(Box::new(ty))),
                Err(e) => Err(e),
            },
            SchemaTypeNode::Optional(inner) => match self.expand(path, trail, None, inner) {
                Ok(ty) => Ok(NativeType::Nullable(Box::new(ty))),
                Err(e) => Err(e),
            },
            SchemaTypeNode::Mapping(tag, value) => {
                if is_plain_key(*tag) {
                    match self.expand(path, trail, None, value) {
                        Ok(ty) => {
                            let key = NativeType::Primitive(native_type_for(*tag));
                            assert(refers_below(key, self@.len() as int));
                            Ok(NativeType::Mapping(Box::new(key), Box::new(ty)))
                        },
                        Err(e) => Err(e),
                    }
                } else {
                    let subject = trail.to_owned();
                    assert(self@.take(self@.len() as int) =~= self@);
                    Err(CompileError { kind: CompileErrorKind::UnsupportedMapKey(*tag), subject })
                }
            },
            SchemaTypeNode::Ref(inner) => self.expand(path, trail, name, inner),
        }
    }

    /// The type table's entry for a tag, as a compilation result.
    fn table(&self, tag: PrimitiveTag) -> (r: Result<NativeType, CompileError>)
        requires
            self.wf(),
        ensures
            step_meets(self@, self@, r, primitive(self@, tag)),
    {
        assert(self@.take(self@.len() as int) =~= self@);
        Ok(NativeType::Primitive(native_type_for(tag)))
    }

    /// Runs one step of [`expand_record`] on the catalog and gives the
    /// record's position.
    fn expand_record(
        &mut self,
        path: &str,
        trail: &str,
        base: &str,
        fields: &Vec<NamedField>,
    ) -> (r: Result<usize, CompileError>)
        requires
            old(self).wf(),
        ensures
            step_meets(
                old(self)@,
                final(self)@,
                record_result(r),
                expand_record(old(self)@, path@, trail@, base@, *fields),
            ),
        decreases *fields, fields@.len() + 1,
    {
        let ghost start = self@;
        assert(start.take(start.len() as int) =~= start);
        let key = tuple_shape_of(fields);
        match self.lookup(&key) {
            Some(found) => {
                return Ok(found);
            },
            None => {},
        }
        let mut properties: Vec<StructProperty> = Vec::new();
        let mut i: usize = 0;
        assert(properties@.map_values(|p: StructProperty| p@) =~= Seq::<PropertyView>::empty());
        while i < fields.len()
            invariant
                i <= fields.len(),
                properties.len() == i,
                start == old(self)@,
                key@ == Shape::Tuple(field_shapes(*fields)),
                find_shape(start, key@) is None,
                catalog_wf(self@),
                start.len() <= self@.len(),
                self@.take(start.len() as int) == start,
                expand_fields(start, base@, trail@, *fields, i as nat) == (FieldsOutcome {
                    catalog: self@,
                    result: Ok(properties@.map_values(|p: StructProperty| p@)),
                }),
                forall|k: int|
                    0 <= k < i ==> property_wf((#[trigger] properties@[k])@, self@.len() as int)
                        && resolve(self@, shape_of(fields@[k].ty)) == Some(properties@[k].native),
            decreases fields.len() - i,
        {
            proof {
                assert(decreases_to!(*fields => fields@[i as int].ty));
            }
            let ghost mid = self@;
            let ghost done = properties@.map_values(|p: StructProperty| p@);
            let field = &fields[i];
            let mut below = trail.to_owned();
            proof {
                reveal_strlit(".");
            }
            assert("."@ =~= path_separator());
            below.append(".");
            below.append(field.name.as_str());
            match self.expand(base, below.as_str(), Some(field.name.as_str()), &field.ty) {
                Err(e) => {
                    proof {
                        assert(expand_fields(start, base@, trail@, *fields, (i + 1) as nat) == (
                        FieldsOutcome {
                            catalog: self@,
                            result: Err::<Seq<PropertyView>, CompileErrorView>(e@),
                        }));
                        lemma_failure_sticks(
                            start,
                            base@,
                            trail@,
                            *fields,
                            (i + 1) as nat,
                            fields@.len(),
                        );
                        assert(self@.take(start.len() as int) =~= mid.take(start.len() as int));
                    }
                    return Err(e);
                },
                Ok(ty) => {
                    let is_composite = match &ty {
                        NativeType::Primitive(_) => false,
                        _ => true,
                    };
                    let property = StructProperty {
                        wire_name: field.name.clone(),
                        native: ty,
                        is_composite,
                    };
                    properties.push(property);
                    proof {
                        assert(self@.take(start.len() as int) =~= mid.take(start.len() as int));
                        assert(properties@.map_values(|p: StructProperty| p@) =~= done.push(
                            property@,
                        ));
                        lemma_compiled_shape_is_held(
                            mid,
                            base@,
                            below@,
                            Some(field.name@),
                            field.ty,
                        );
                        assert forall|k: int| 0 <= k < i + 1 implies property_wf(
                            (#[trigger] properties@[k])@,
                            self@.len() as int,
                        ) && resolve(self@, shape_of(fields@[k].ty)) == Some(
                            properties@[k].native,
                        ) by {
                            if k < i {
                                lemma_refers_below_grows(
                                    properties@[k].native,
                                    mid.len() as int,
                                    self@.len() as int,
                                );
                                lemma_resolve_in_extension(mid, self@, shape_of(fields@[k].ty));
                            }
                        }
                    }
                },
            }
            i = i + 1;
        }
        match self.lookup(&key) {
            Some(found) => {
                return Ok(found);
            },
            None => {},
        }
        match self.choose_name(path, base) {
            None => {
                let subject = path.to_owned().concat(base);
                Err(CompileError { kind: CompileErrorKind::ShapeCollision, subject })
            },
            Some(name) => {
                let ghost mid = self@;
                let index = self.records.len();
                let record = RecordDefinition { name, shape: key, properties };
                self.records.push(record);
                proof {
                    assert(self@ =~= mid.push(record@));
                    assert(self@.take(start.len() as int) =~= mid.take(start.len() as int));
                    assert(record_wf(record@, index as int));
                    assert forall|k: int| 0 <= k < record@.properties.len() implies resolve(
                        mid,
                        record@.shape->Tuple_0[k],
                    ) == Some((#[trigger] record@.properties[k]).native) by {
                        assert(record@.properties[k] == properties@[k]@);
                        assert(record@.shape->Tuple_0[k] == shape_of(fields@[k].ty));
                    }
                    lemma_push_wf(mid, record@);
                }
                Ok(index)
            },
        }
    }

    /// Compiles a schema type under an optional field name.
    ///
    /// The result and the catalog afterwards are those of [`compile_spec`]:
    /// identical shapes share one record, a reference compiles as what it
    /// refers to, and a failure leaves the catalog untouched.
    pub fn compile(&mut self, name: Option<String>, node: &SchemaTypeNode) -> (r: Result<
        NativeType,
        CompileError,
    >)
        requires
            old(self).wf(),
        ensures
            final(self).wf(),
            final(self)@ == compile_spec(
                old(self)@,
                match name {
                    Some(text) => Some(text@),
                    None => None,
                },
                *node,
            ).catalog,
            result_view(r) == compile_spec(
                old(self)@,
                match name {
                    Some(text) => Some(text@),
                    None => None,
                },
                *node,
            ).result,
            r matches Ok(ty) ==> refers_below(ty, final(self)@.len() as int),
            old(self)@.len() <= final(self)@.len(),
            final(self)@.take(old(self)@.len() as int) == old(self)@,
    {
        let mark = self.records.len();
        proof {
            reveal_strlit("");
        }
        assert(""@ =~= Seq::<char>::empty());
        let r = match &name {
            Some(text) => self.expand("", text.as_str(), Some(text.as_str()), node),
            None => self.expand("", "", None, node),
        };
        if r.is_err() {
            let ghost grown = self@;
            self.records.truncate(mark);
            assert(self@ =~= grown.take(mark as int));
            assert(self@.take(mark as int) =~= self@);
        }
        r
    }

    /// Compiles a field list into a record that asks for the display name
    /// `base`, and gives the record's position in the catalog.
    ///
    /// The result and the catalog afterwards are those of
    /// [`compile_record_spec`]; a failure leaves the catalog untouched.
    pub fn compile_record(&mut self, base: &str, fields: &Vec<NamedField>) -> (r: Result<
        usize,
        CompileError,
    >)
        requires
            old(self).wf(),
        ensures
            final(self).wf(),
            final(self)@ == compile_record_spec(old(self)@, base@, *fields).catalog,
            old(self)@.len() <= final(self)@.len(),
            final(self)@.take(old(self)@.len() as int) == old(self)@,
            match r {
                Ok(index) => compile_record_spec(old(self)@, base@, *fields).result == Ok::<
                    NativeType,
                    CompileErrorView,
                >(NativeType::Record(index)) && index < final(self)@.len(),
                Err(e) => compile_record_spec(old(self)@, base@, *fields).result == Err::<
                    NativeType,
                    CompileErrorView,
                >(e@),
            },
    {
        let mark = self.records.len();
        proof {
            reveal_strlit("");
        }
        assert(""@ =~= Seq::<char>::empty());
        match self.expand_record("", base, base, fields) {
            Ok(index) => Ok(index),
            Err(e) => {
                let ghost grown = self@;
                self.records.truncate(mark);
                assert(self@ =~= grown.take(mark as int));
                assert(self@.take(mark as int) =~= self@);
                Err(e)
            },
        }
    }
}

} // verus!
