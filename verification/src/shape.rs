//! Shape keys: schema types with every field name erased.

use vstd::prelude::*;
use crate::schema::{NamedField, PrimitiveTag, SchemaTypeNode};

verus! {

/// Name-erased fingerprint of a schema type.  Two schema types with equal
/// keys have the same field count, the same ordered field types and the same
/// widths and lengths, so one codec serves both.
#[derive(Debug, PartialEq, Eq)]
pub enum ShapeKey {
    Atom(PrimitiveTag),
    Tuple(Vec<ShapeKey>),
    Array(Box<ShapeKey>),
    FixedArray(Box<ShapeKey>, usize),
    Optional(Box<ShapeKey>),
    Mapping(PrimitiveTag, Box<ShapeKey>),
}

/// Mathematical model of a [`ShapeKey`].
pub ghost enum Shape {
    Atom(PrimitiveTag),
    Tuple(Seq<Shape>),
    Array(Box<Shape>),
    FixedArray(Box<Shape>, usize),
    Optional(Box<Shape>),
    Mapping(PrimitiveTag, Box<Shape>),
}

/// The model of a key, child by child.
pub open spec fn shape_view(key: ShapeKey) -> Shape
    decreases key,
{
    match key {
        ShapeKey::Atom(tag) => Shape::Atom(tag),
        ShapeKey::Tuple(items) => Shape::Tuple(
            Seq::new(
                items@.len(),
                |i: int|
                    if 0 <= i < items@.len() {
                        shape_view(items@[i])
                    } else {
                        Shape::Atom(PrimitiveTag::Bool)
                    },
            ),
        ),
        ShapeKey::Array(inner) => Shape::Array(Box::new(shape_view(*inner))),
        ShapeKey::FixedArray(inner, len) => Shape::FixedArray(Box::new(shape_view(*inner)), len),
        ShapeKey::Optional(inner) => Shape::Optional(Box::new(shape_view(*inner))),
        ShapeKey::Mapping(tag, value) => Shape::Mapping(tag, Box::new(shape_view(*value))),
    }
}

impl View for ShapeKey {
    type V = Shape;

    open spec fn view(&self) -> Shape {
        shape_view(*self)
    }
}

/// The models of a list of keys, in order.
pub open spec fn shapes_view(keys: Seq<ShapeKey>) -> Seq<Shape> {
    Seq::new(keys.len(), |i: int| keys[i]@)
}

/// The shape of a schema type: primitives become atoms, tuples keep their
/// ordered children and lose the names, wrappers keep their kind and
/// length, and a reference is the shape of what it refers to.
pub open spec fn shape_of(node: SchemaTypeNode) -> Shape
    decreases node,
{
    match node {
        SchemaTypeNode::UInt(w) => Shape::Atom(PrimitiveTag::UInt(w)),
        SchemaTypeNode::Int(w) => Shape::Atom(PrimitiveTag::Int(w)),
        SchemaTypeNode::VarUInt(w) => Shape::Atom(PrimitiveTag::VarUInt(w)),
        SchemaTypeNode::VarInt(w) => Shape::Atom(PrimitiveTag::VarInt(w)),
        SchemaTypeNode::Bool => Shape::Atom(PrimitiveTag::Bool),
        SchemaTypeNode::Cell => Shape::Atom(PrimitiveTag::Cell),
        SchemaTypeNode::Address => Shape::Atom(PrimitiveTag::Address),
        SchemaTypeNode::Bytes => Shape::Atom(PrimitiveTag::Bytes),
        SchemaTypeNode::FixedBytes(len) => Shape::Atom(PrimitiveTag::FixedBytes(len)),
        SchemaTypeNode::String => Shape::Atom(PrimitiveTag::String),
        SchemaTypeNode::Token => Shape::Atom(PrimitiveTag::Token),
        SchemaTypeNode::Tuple(fields) => Shape::Tuple(field_shapes(fields)),
        SchemaTypeNode::Array(inner) => Shape::Array(Box::new(shape_of(*inner))),
        SchemaTypeNode::FixedArray(inner, len) => Shape::FixedArray(
            Box::new(shape_of(*inner)),
            len,
        ),
        SchemaTypeNode::Optional(inner) => Shape::Optional(Box::new(shape_of(*inner))),
        SchemaTypeNode::Mapping(tag, value) => Shape::Mapping(tag, Box::new(shape_of(*value))),
        SchemaTypeNode::Ref(inner) => shape_of(*inner),
    }
}

/// The shapes of a field list, in field order.
pub open spec fn field_shapes(fields: Vec<NamedField>) -> Seq<Shape>
    decreases fields,
{
    Seq::new(
        fields@.len(),
        |i: int|
            if 0 <= i < fields@.len() {
                shape_of(fields@[i].ty)
            } else {
                Shape::Atom(PrimitiveTag::Bool)
            },
    )
}

/// Computes the shape key of a field list: a tuple of the fields' keys.
pub fn tuple_shape_of(fields: &Vec<NamedField>) -> (key: ShapeKey)
    ensures
        key@ == Shape::Tuple(field_shapes(*fields)),
    decreases *fields,
{
    let mut items: Vec<ShapeKey> = Vec::new();
    let mut i: usize = 0;
    while i < fields.len()
        invariant
            i <= fields.len(),
            items.len() == i,
            forall|j: int| 0 <= j < i ==> (#[trigger] items@[j])@ == shape_of(fields@[j].ty),
        decreases fields.len() - i,
    {
        proof {
            assert(decreases_to!(*fields => fields@[i as int]));
        }
        let item = shape_of_node(&fields[i].ty);
        items.push(item);
        i = i + 1;
    }
    let key = ShapeKey::Tuple(items);
    assert(key@->Tuple_0 =~= field_shapes(*fields));
    key
}

/// Computes the shape key of a schema type.
pub fn shape_of_node(node: &SchemaTypeNode) -> (key: ShapeKey)
    ensures
        key@ == shape_of(*node),
    decreases *node,
{
    match node {
        SchemaTypeNode::UInt(w) => ShapeKey::Atom(PrimitiveTag::UInt(*w)),
        SchemaTypeNode::Int(w) => ShapeKey::Atom(PrimitiveTag::Int(*w)),
        SchemaTypeNode::VarUInt(w) => ShapeKey::Atom(PrimitiveTag::VarUInt(*w)),
        SchemaTypeNode::VarInt(w) => ShapeKey::Atom(PrimitiveTag::VarInt(*w)),
        SchemaTypeNode::Bool => ShapeKey::Atom(PrimitiveTag::Bool),
        SchemaTypeNode::Cell => ShapeKey::Atom(PrimitiveTag::Cell),
        SchemaTypeNode::Address => ShapeKey::Atom(PrimitiveTag::Address),
        SchemaTypeNode::Bytes => ShapeKey::Atom(PrimitiveTag::Bytes),
        SchemaTypeNode::FixedBytes(len) => ShapeKey::Atom(PrimitiveTag::FixedBytes(*len)),
        SchemaTypeNode::String => ShapeKey::Atom(PrimitiveTag::String),
        SchemaTypeNode::Token => ShapeKey::Atom(PrimitiveTag::Token),
        SchemaTypeNode::Tuple(fields) => {
            proof {
                assert(decreases_to!(*node => node->Tuple_0));
            }
            tuple_shape_of(fields)
        },
        SchemaTypeNode::Array(inner) => ShapeKey::Array(Box::new(shape_of_node(inner))),
        SchemaTypeNode::FixedArray(inner, len) => ShapeKey::FixedArray(
            Box::new(shape_of_node(inner)),
            *len,
        ),
        SchemaTypeNode::Optional(inner) => ShapeKey::Optional(Box::new(shape_of_node(inner))),
        SchemaTypeNode::Mapping(tag, value) => ShapeKey::Mapping(
            *tag,
            Box::new(shape_of_node(value)),
        ),
        SchemaTypeNode::Ref(inner) => shape_of_node(inner),
    }
}

impl ShapeKey {
    /// Whether two keys stand for the same shape.
    pub fn same(&self, other: &ShapeKey) -> (r: bool)
        ensures
            r == (self@ == other@),
        decreases *self,
    {
        match (self, other) {
            (ShapeKey::Atom(a), ShapeKey::Atom(b)) => *a == *b,
            (ShapeKey::Tuple(xs), ShapeKey::Tuple(ys)) => {
                if xs.len() != ys.len() {
                    assert(self@->Tuple_0.len() != other@->Tuple_0.len());
                    return false;
                }
                let mut i: usize = 0;
                while i < xs.len()
                    invariant
                        i <= xs.len(),
                        xs.len() == ys.len(),
                        *self == ShapeKey::Tuple(*xs),
                        *other == ShapeKey::Tuple(*ys),
                        forall|j: int| 0 <= j < i ==> (#[trigger] xs@[j])@ == ys@[j]@,
                    decreases xs.len() - i,
                {
                    proof {
                        assert(decreases_to!(*self => self->Tuple_0@[i as int]));
                    }
                    if !xs[i].same(&ys[i]) {
                        assert(self@->Tuple_0[i as int] == xs@[i as int]@);
                        assert(other@->Tuple_0[i as int] == ys@[i as int]@);
                        return false;
                    }
                    i = i + 1;
                }
                assert(self@->Tuple_0 =~= other@->Tuple_0);
                true
            },
            (ShapeKey::Array(a), ShapeKey::Array(b)) => a.same(b),
            (ShapeKey::FixedArray(a, n), ShapeKey::FixedArray(b, m)) => *n == *m && a.same(b),
            (ShapeKey::Optional(a), ShapeKey::Optional(b)) => a.same(b),
            (ShapeKey::Mapping(k, a), ShapeKey::Mapping(l, b)) => *k == *l && a.same(b),
            _ => false,
        }
    }

    /// A fresh key for the same shape.
    pub fn duplicate(&self) -> (r: ShapeKey)
        ensures
            r@ == self@,
        decreases *self,
    {
        match self {
            ShapeKey::Atom(tag) => ShapeKey::Atom(*tag),
            ShapeKey::Tuple(items) => {
                let mut copies: Vec<ShapeKey> = Vec::new();
                let mut i: usize = 0;
                while i < items.len()
                    invariant
                        i <= items.len(),
                        copies.len() == i,
                        *self == ShapeKey::Tuple(*items),
                        forall|j: int| 0 <= j < i ==> (#[trigger] copies@[j])@ == items@[j]@,
                    decreases items.len() - i,
                {
                    proof {
                        assert(decreases_to!(*self => self->Tuple_0@[i as int]));
                    }
                    copies.push(items[i].duplicate());
                    i = i + 1;
                }
                let r = ShapeKey::Tuple(copies);
                assert(r@->Tuple_0 =~= self@->Tuple_0);
                r
            },
            ShapeKey::Array(inner) => ShapeKey::Array(Box::new(inner.duplicate())),
            ShapeKey::FixedArray(inner, len) => ShapeKey::FixedArray(
                Box::new(inner.duplicate()),
                *len,
            ),
            ShapeKey::Optional(inner) => ShapeKey::Optional(Box::new(inner.duplicate())),
            ShapeKey::Mapping(tag, value) => ShapeKey::Mapping(*tag, Box::new(value.duplicate())),
        }
    }
}

} // verus!
