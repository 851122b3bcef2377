//! The codec deriver: from a record definition to its wire type and its two
//! inverse transforms.

use vstd::prelude::*;
use crate::catalog::RecordDefinition;
use crate::codec::{
    decode_fields, decode_spec, decoded_view, encode_fields, encode_spec, field_shapes_of,
    valid_instance, DecodeError,
};
use crate::shape::{shapes_view, Shape, ShapeKey};
use crate::value::{values_view, wires_view, NativeValue, WireValue};

verus! {

/// The codec derived for one record: the shapes of its fields, in field
/// order.
#[derive(Debug, PartialEq, Eq)]
pub struct RecordCodec {
    pub fields: Vec<ShapeKey>,
}

impl RecordCodec {
    /// Encodes an instance: field `i` becomes value `i`, under the tag of
    /// field `i`.  Gives a sequence exactly for the valid instances.
    pub fn encode(&self, instance: Vec<NativeValue>) -> (r: Option<Vec<WireValue>>)
        ensures
            match r {
                Some(wires) => valid_instance(shapes_view(self.fields@), values_view(instance@))
                    && wires_view(wires@) == encode_spec(
                    shapes_view(self.fields@),
                    values_view(instance@),
                ),
                None => !valid_instance(shapes_view(self.fields@), values_view(instance@)),
            },
    {
        encode_fields(&self.fields, instance)
    }

    /// Decodes a sequence of wire values, strictly in order and one per
    /// field.
    pub fn decode(&self, wires: Vec<WireValue>) -> (r: Result<Vec<NativeValue>, DecodeError>)
        ensures
            decoded_view(r) == decode_spec(shapes_view(self.fields@), wires_view(wires@)),
    {
        decode_fields(&self.fields, wires)
    }
}

/// Fresh keys for the same shapes, in order.
fn duplicate_all(keys: &Vec<ShapeKey>) -> (r: Vec<ShapeKey>)
    ensures
        shapes_view(r@) == shapes_view(keys@),
{
    let mut out: Vec<ShapeKey> = Vec::new();
    let mut i: usize = 0;
    while i < keys.len()
        invariant
            i <= keys.len(),
            out@.len() == i,
            forall|j: int| 0 <= j < i ==> (#[trigger] out@[j])@ == keys@[j]@,
        decreases keys.len() - i,
    {
        out.push(keys[i].duplicate());
        i = i + 1;
    }
    assert(shapes_view(out@) =~= shapes_view(keys@));
    out
}

impl RecordCodec {
    /// Derives the codec of a record: its field shapes in field order.
    pub fn derive(record: &RecordDefinition) -> (codec: RecordCodec)
        ensures
            shapes_view(codec.fields@) == field_shapes_of(record@),
    {
        match &record.shape {
            ShapeKey::Tuple(children) => {
                assert(field_shapes_of(record@) =~= shapes_view(children@));
                RecordCodec { fields: duplicate_all(children) }
            },
            _ => {
                let fields: Vec<ShapeKey> = Vec::new();
                assert(field_shapes_of(record@) =~= shapes_view(fields@));
                RecordCodec { fields }
            },
        }
    }

    /// The wire type of the record: the tuple of its field shapes.
    pub fn wire_type(&self) -> (ty: ShapeKey)
        ensures
            ty@ == Shape::Tuple(shapes_view(self.fields@)),
    {
        let ty = ShapeKey::Tuple(duplicate_all(&self.fields));
        assert(ty@->Tuple_0 =~= shapes_view(self.fields@));
        ty
    }
}

} // verus!
