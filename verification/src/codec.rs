//! The record codec: positional conversion between native instances and
//! ordered sequences of tagged wire values.

use vstd::prelude::*;
use crate::catalog::{RecordDefinition, RecordView};
use crate::sequence::reversed;
use crate::shape::{shapes_view, Shape, ShapeKey};
use crate::value::{
    fits, is_key_before, key_before, lemma_key_before_strict, scalar_fits, values_view,
    wires_view, NativeValue, NativeView, ScalarView, WireValue, WireView,
};

verus! {

/// Whether a native value is an instance of a shape.
///
/// A scalar fits its primitive tag; a record has one conforming field per
/// child; a sequence has conforming items, and exactly as many as a fixed
/// length asks for; a nullable is empty or holds a conforming value; a
/// mapping has fitting keys in strictly ascending order and conforming
/// values.
pub open spec fn conforms(shape: Shape, value: NativeView) -> bool
    decreases shape,
{
    match shape {
        Shape::Atom(tag) => value is Scalar && fits(tag, value->Scalar_0),
        Shape::Tuple(children) => {
            &&& value is Record
            &&& value->Record_0.len() == children.len()
            &&& forall|i: int|
                0 <= i < children.len() ==> conforms(
                    #[trigger] children[i],
                    value->Record_0[i],
                )
        },
        Shape::Array(inner) => {
            &&& value is Sequence
            &&& forall|i: int|
                0 <= i < value->Sequence_0.len() ==> conforms(
                    *inner,
                    #[trigger] value->Sequence_0[i],
                )
        },
        Shape::FixedArray(inner, len) => {
            &&& value is Sequence
            &&& value->Sequence_0.len() == len
            &&& forall|i: int|
                0 <= i < value->Sequence_0.len() ==> conforms(
                    *inner,
                    #[trigger] value->Sequence_0[i],
                )
        },
        Shape::Optional(inner) => {
            &&& value is Nullable
            &&& (value->Nullable_0 matches Some(held) ==> conforms(*inner, *held))
        },
        Shape::Mapping(tag, inner) => {
            &&& value is Mapping
            &&& forall|i: int|
                0 <= i < value->Mapping_0.len() ==> {
                    &&& fits(tag, (#[trigger] value->Mapping_0[i]).0)
                    &&& conforms(*inner, value->Mapping_0[i].1)
                    &&& (i > 0 ==> key_before(value->Mapping_0[i - 1].0, value->Mapping_0[i].0))
                }
        },
    }
}

/// Decides [`conforms`].
pub fn check_conforms(shape: &ShapeKey, value: &NativeValue) -> (r: bool)
    ensures
        r == conforms(shape@, value@),
    decreases *shape, 0nat,
{
    match shape {
        ShapeKey::Atom(tag) => match value {
            NativeValue::Scalar(s) => scalar_fits(*tag, s),
            _ => false,
        },
        ShapeKey::Tuple(children) => match value {
            NativeValue::Record(items) => {
                if items.len() != children.len() {
                    return false;
                }
                let mut i: usize = 0;
                while i < children.len()
                    invariant
                        i <= children.len(),
                        items.len() == children.len(),
                        *shape == ShapeKey::Tuple(*children),
                        *value == NativeValue::Record(*items),
                        forall|j: int|
                            0 <= j < i ==> conforms((#[trigger] children@[j])@, items@[j]@),
                    decreases children.len() - i,
                {
                    proof {
                        assert(decreases_to!(*shape => shape->Tuple_0@[i as int]));
                    }
                    if !check_conforms(&children[i], &items[i]) {
                        assert(shape@->Tuple_0[i as int] == children@[i as int]@);
                        assert(value@->Record_0[i as int] == items@[i as int]@);
                        assert(!conforms(shape@->Tuple_0[i as int], value@->Record_0[i as int]));
                        return false;
                    }
                    i = i + 1;
                }
                assert forall|j: int| 0 <= j < shape@->Tuple_0.len() implies conforms(
                    #[trigger] shape@->Tuple_0[j],
                    value@->Record_0[j],
                ) by {
                    assert(shape@->Tuple_0[j] == children@[j]@);
                    assert(value@->Record_0[j] == items@[j]@);
                    assert(conforms(children@[j]@, items@[j]@));
                }
                true
            },
            _ => false,
        },
        ShapeKey::Array(inner) => match value {
            NativeValue::Sequence(items) => {
                assert(value@->Sequence_0 =~= values_view(items@));
                check_all_conform(inner, items)
            },
            _ => false,
        },
        ShapeKey::FixedArray(inner, len) => match value {
            NativeValue::Sequence(items) => {
                assert(value@->Sequence_0 =~= values_view(items@));
                items.len() == *len && check_all_conform(inner, items)
            },
            _ => false,
        },
        ShapeKey::Optional(inner) => match value {
            NativeValue::Nullable(Some(held)) => check_conforms(inner, held),
            NativeValue::Nullable(None) => true,
            _ => false,
        },
        ShapeKey::Mapping(tag, inner) => match value {
            NativeValue::Mapping(entries) => {
                let mut i: usize = 0;
                while i < entries.len()
                    invariant
                        i <= entries.len(),
                        *shape == ShapeKey::Mapping(*tag, *inner),
                        *value == NativeValue::Mapping(*entries),
                        shape@ == Shape::Mapping(*tag, Box::new(inner@)),
                        value@ is Mapping,
                        value@->Mapping_0.len() == entries@.len(),
                        forall|j: int|
                            0 <= j < entries@.len() ==> (#[trigger] value@->Mapping_0[j]) == (
                                entries@[j].key@,
                                entries@[j].value@,
                            ),
                        forall|j: int|
                            0 <= j < i ==> {
                                &&& fits(*tag, (#[trigger] value@->Mapping_0[j]).0)
                                &&& conforms(inner@, value@->Mapping_0[j].1)
                                &&& (j > 0 ==> key_before(
                                    value@->Mapping_0[j - 1].0,
                                    value@->Mapping_0[j].0,
                                ))
                            },
                    decreases entries.len() - i,
                {
                    proof {
                        assert(decreases_to!(*shape => shape->Mapping_1));
                    }
                    let entry = &entries[i];
                    let ordered = i == 0 || is_key_before(&entries[i - 1].key, &entry.key);
                    if !ordered || !scalar_fits(*tag, &entry.key) || !check_conforms(
                        inner,
                        &entry.value,
                    ) {
                        assert(value@->Mapping_0[i as int].0 == entry.key@);
                        return false;
                    }
                    assert(value@->Mapping_0[i as int].0 == entry.key@);
                    i = i + 1;
                }
                true
            },
            _ => false,
        },
    }
}

/// Whether every item is an instance of the shape.
fn check_all_conform(shape: &ShapeKey, items: &Vec<NativeValue>) -> (r: bool)
    ensures
        r == (forall|i: int|
            0 <= i < items@.len() ==> conforms(shape@, #[trigger] values_view(items@)[i])),
    decreases *shape, 1nat,
{
    let mut i: usize = 0;
    while i < items.len()
        invariant
            i <= items.len(),
            forall|j: int| 0 <= j < i ==> conforms(shape@, #[trigger] values_view(items@)[j]),
        decreases items.len() - i,
    {
        if !check_conforms(shape, &items[i]) {
            assert(values_view(items@)[i as int] == items@[i as int]@);
            return false;
        }
        assert(values_view(items@)[i as int] == items@[i as int]@);
        i = i + 1;
    }
    true
}


/// Why a sequence of wire values was not decoded.
#[derive(Debug, PartialEq, Eq)]
#[allow(inconsistent_fields)]
pub enum DecodeError {
    /// The sequence has fewer or more values than the record has fields.
    Arity { expected: usize, received: usize },
    /// The value at a position is tagged with another shape than the
    /// field's.
    Mismatch { position: usize, expected: ShapeKey, received: ShapeKey },
    /// The value at a position carries the field's tag, but its payload is
    /// no instance of that shape.
    Malformed { position: usize, expected: ShapeKey },
}

/// Model of a [`DecodeError`].
#[allow(inconsistent_fields)]
pub ghost enum DecodeErrorView {
    Arity { expected: int, received: int },
    Mismatch { position: int, expected: Shape, received: Shape },
    Malformed { position: int, expected: Shape },
}

impl View for DecodeError {
    type V = DecodeErrorView;

    open spec fn view(&self) -> DecodeErrorView {
        match self {
            DecodeError::Arity { expected, received } => DecodeErrorView::Arity {
                expected: *expected as int,
                received: *received as int,
            },
            DecodeError::Mismatch { position, expected, received } => DecodeErrorView::Mismatch {
                position: *position as int,
                expected: expected@,
                received: received@,
            },
            DecodeError::Malformed { position, expected } => DecodeErrorView::Malformed {
                position: *position as int,
                expected: expected@,
            },
        }
    }
}

/// The shapes of a record's fields, in field order.
pub open spec fn field_shapes_of(record: RecordView) -> Seq<Shape> {
    match record.shape {
        Shape::Tuple(children) => children,
        _ => Seq::empty(),
    }
}

/// Whether a list of native values is an instance of a record with the
/// given field shapes: one conforming value per field.
pub open spec fn valid_instance(shapes: Seq<Shape>, values: Seq<NativeView>) -> bool {
    &&& values.len() == shapes.len()
    &&& forall|i: int| 0 <= i < shapes.len() ==> conforms(shapes[i], #[trigger] values[i])
}

/// Whether a wire value is accepted for a field: it carries the field's
/// shape as its tag, and its payload is an instance of that shape.
pub open spec fn accepts(shape: Shape, wire: WireView) -> bool {
    wire.tag == shape && conforms(shape, wire.payload)
}

/// The first position among the first `count` at which a wire value is not
/// accepted, if there is one.
pub open spec fn first_rejected(shapes: Seq<Shape>, wires: Seq<WireView>, count: nat) -> Option<
    int,
>
    decreases count,
{
    if count == 0 {
        None
    } else {
        match first_rejected(shapes, wires, (count - 1) as nat) {
            Some(i) => Some(i),
            None => if accepts(shapes[count - 1], wires[count - 1]) {
                None
            } else {
                Some(count - 1)
            },
        }
    }
}

/// The error for a wire value that is not accepted at a position.
pub open spec fn rejection(shape: Shape, wire: WireView, position: int) -> DecodeErrorView {
    if wire.tag != shape {
        DecodeErrorView::Mismatch { position, expected: shape, received: wire.tag }
    } else {
        DecodeErrorView::Malformed { position, expected: shape }
    }
}

/// Encoding: value `i` of the sequence is field `i` of the instance under
/// the tag of field `i`.
pub open spec fn encode_spec(shapes: Seq<Shape>, values: Seq<NativeView>) -> Seq<WireView> {
    Seq::new(values.len(), |i: int| WireView { tag: shapes[i], payload: values[i] })
}

/// Decoding: a sequence of another length than the field count is an arity
/// error; otherwise the first value that is not accepted gives the error,
/// and where all are accepted the instance is their payloads in order.
pub open spec fn decode_spec(shapes: Seq<Shape>, wires: Seq<WireView>) -> Result<
    Seq<NativeView>,
    DecodeErrorView,
> {
    if wires.len() != shapes.len() {
        Err(DecodeErrorView::Arity { expected: shapes.len() as int, received: wires.len() as int })
    } else {
        match first_rejected(shapes, wires, shapes.len()) {
            Some(i) => Err(rejection(shapes[i], wires[i], i)),
            None => Ok(Seq::new(wires.len(), |i: int| wires[i].payload)),
        }
    }
}

/// The model of a decoding result.
pub open spec fn decoded_view(r: Result<Vec<NativeValue>, DecodeError>) -> Result<
    Seq<NativeView>,
    DecodeErrorView,
> {
    match r {
        Ok(values) => Ok(values_view(values@)),
        Err(e) => Err(e@),
    }
}

/// A rejection among the first values stays the first rejection however
/// many more values are looked at.
pub proof fn lemma_rejection_sticks(
    shapes: Seq<Shape>,
    wires: Seq<WireView>,
    at: nat,
    count: nat,
)
    requires
        first_rejected(shapes, wires, at) is Some,
        at <= count,
    ensures
        first_rejected(shapes, wires, count) == first_rejected(shapes, wires, at),
    decreases count,
{
    if at < count {
        lemma_rejection_sticks(shapes, wires, at, (count - 1) as nat);
    }
}

/// Nothing is rejected among values that are all accepted, and conversely.
pub proof fn lemma_none_rejected(shapes: Seq<Shape>, wires: Seq<WireView>, count: nat)
    ensures
        first_rejected(shapes, wires, count) is None <==> forall|i: int|
            0 <= i < count ==> accepts(shapes[i], #[trigger] wires[i]),
        first_rejected(shapes, wires, count) matches Some(i) ==> 0 <= i < count,
    decreases count,
{
    if count > 0 {
        lemma_none_rejected(shapes, wires, (count - 1) as nat);
        if first_rejected(shapes, wires, count) is None {
            assert forall|i: int| 0 <= i < count implies accepts(shapes[i], #[trigger] wires[i]) by {
                if i == count - 1 {
                } else {
                    assert(first_rejected(shapes, wires, (count - 1) as nat) is None);
                }
            }
        } else if first_rejected(shapes, wires, (count - 1) as nat) is None {
            assert(!accepts(shapes[count - 1], wires[count - 1]));
        }
    }
}

/// Encodes an instance of a record with the given field keys.
pub fn encode_fields(children: &Vec<ShapeKey>, instance: Vec<NativeValue>) -> (r: Option<
    Vec<WireValue>,
>)
    ensures
        match r {
            Some(wires) => valid_instance(shapes_view(children@), values_view(instance@))
                && wires_view(wires@) == encode_spec(
                shapes_view(children@),
                values_view(instance@),
            ),
            None => !valid_instance(shapes_view(children@), values_view(instance@)),
        },
{
    let ghost shapes = shapes_view(children@);
    let ghost values = values_view(instance@);
    let n = children.len();
    if instance.len() != n {
        return None;
    }
    let mut i: usize = 0;
    while i < n
        invariant
            i <= n,
            n == children.len(),
            instance.len() == n,
            shapes == shapes_view(children@),
            values == values_view(instance@),
            forall|j: int| 0 <= j < i ==> conforms(shapes[j], #[trigger] values[j]),
        decreases n - i,
    {
        if !check_conforms(&children[i], &instance[i]) {
            assert(!conforms(shapes[i as int], values[i as int]));
            return None;
        }
        assert(conforms(shapes[i as int], values[i as int]));
        i = i + 1;
    }
    let mut rest = reversed(instance);
    let ghost backwards = rest@;
    let mut wires: Vec<WireValue> = Vec::new();
    let mut k: usize = 0;
    while k < n
        invariant
            k <= n,
            n == children.len(),
            instance@.len() == n,
            backwards.len() == n,
            wires@.len() == k,
            rest@ == backwards.take(n - k),
            forall|j: int| 0 <= j < n ==> #[trigger] backwards[j] == instance@[n - 1 - j],
            forall|j: int|
                0 <= j < k ==> (#[trigger] wires@[j])@ == (WireView {
                    tag: children@[j]@,
                    payload: instance@[j]@,
                }),
        decreases n - k,
    {
        match rest.pop() {
            Some(value) => {
                assert(value == backwards[n - 1 - k]);
                let wire = WireValue { tag: children[k].duplicate(), payload: value };
                wires.push(wire);
                assert(rest@ =~= backwards.take(n - (k + 1)));
            },
            None => {},
        }
        k = k + 1;
    }
    assert(wires_view(wires@) =~= encode_spec(shapes, values));
    Some(wires)
}

/// Decodes a sequence of wire values against the given field keys.
pub fn decode_fields(children: &Vec<ShapeKey>, wires: Vec<WireValue>) -> (r: Result<
    Vec<NativeValue>,
    DecodeError,
>)
    ensures
        decoded_view(r) == decode_spec(shapes_view(children@), wires_view(wires@)),
{
    let ghost shapes = shapes_view(children@);
    let ghost tagged = wires_view(wires@);
    let n = children.len();
    if wires.len() != n {
        return Err(DecodeError::Arity { expected: n, received: wires.len() });
    }
    let mut i: usize = 0;
    while i < n
        invariant
            i <= n,
            n == children.len(),
            wires.len() == n,
            shapes == shapes_view(children@),
            tagged == wires_view(wires@),
            first_rejected(shapes, tagged, i as nat) is None,
        decreases n - i,
    {
        let wire = &wires[i];
        assert(tagged[i as int] == wire@);
        assert(shapes[i as int] == children@[i as int]@);
        if !children[i].same(&wire.tag) {
            proof {
                lemma_rejection_sticks(shapes, tagged, (i + 1) as nat, n as nat);
            }
            return Err(
                DecodeError::Mismatch {
                    position: i,
                    expected: children[i].duplicate(),
                    received: wire.tag.duplicate(),
                },
            );
        }
        if !check_conforms(&children[i], &wire.payload) {
            proof {
                lemma_rejection_sticks(shapes, tagged, (i + 1) as nat, n as nat);
            }
            return Err(DecodeError::Malformed { position: i, expected: children[i].duplicate() });
        }
        i = i + 1;
    }
    let mut rest = reversed(wires);
    let ghost backwards = rest@;
    let mut values: Vec<NativeValue> = Vec::new();
    let mut k: usize = 0;
    while k < n
        invariant
            k <= n,
            wires@.len() == n,
            backwards.len() == n,
            values@.len() == k,
            rest@ == backwards.take(n - k),
            forall|j: int| 0 <= j < n ==> #[trigger] backwards[j] == wires@[n - 1 - j],
            forall|j: int| 0 <= j < k ==> (#[trigger] values@[j])@ == wires@[j]@.payload,
        decreases n - k,
    {
        match rest.pop() {
            Some(wire) => {
                assert(wire == backwards[n - 1 - k]);
                values.push(wire.payload);
                assert(rest@ =~= backwards.take(n - (k + 1)));
            },
            None => {},
        }
        k = k + 1;
    }
    assert(values_view(values@) =~= Seq::new(tagged.len(), |i: int| tagged[i].payload));
    Ok(values)
}

/// Encodes an instance of a record into its ordered sequence of wire
/// values: field `i` becomes value `i`, tagged with the field's shape.
/// Gives a sequence exactly for the valid instances of the record.
pub fn encode(record: &RecordDefinition, instance: Vec<NativeValue>) -> (r: Option<Vec<WireValue>>)
    ensures
        match r {
            Some(wires) => valid_instance(field_shapes_of(record@), values_view(instance@))
                && wires_view(wires@) == encode_spec(
                field_shapes_of(record@),
                values_view(instance@),
            ),
            None => !valid_instance(field_shapes_of(record@), values_view(instance@)),
        },
{
    match &record.shape {
        ShapeKey::Tuple(children) => {
            assert(field_shapes_of(record@) =~= shapes_view(children@));
            encode_fields(children, instance)
        },
        _ => {
            let children: Vec<ShapeKey> = Vec::new();
            assert(field_shapes_of(record@) =~= shapes_view(children@));
            encode_fields(&children, instance)
        },
    }
}

/// Decodes an ordered sequence of wire values into an instance of a
/// record.  The values are taken strictly in order, one per field; each
/// must carry its field's shape and hold an instance of it.
pub fn decode(record: &RecordDefinition, wires: Vec<WireValue>) -> (r: Result<
    Vec<NativeValue>,
    DecodeError,
>)
    ensures
        decoded_view(r) == decode_spec(field_shapes_of(record@), wires_view(wires@)),
{
    match &record.shape {
        ShapeKey::Tuple(children) => {
            assert(field_shapes_of(record@) =~= shapes_view(children@));
            decode_fields(children, wires)
        },
        _ => {
            let children: Vec<ShapeKey> = Vec::new();
            assert(field_shapes_of(record@) =~= shapes_view(children@));
            decode_fields(&children, wires)
        },
    }
}

/// Round trip: decoding what a valid instance encodes to gives the
/// instance back.
pub proof fn lemma_round_trip(shapes: Seq<Shape>, values: Seq<NativeView>)
    requires
        valid_instance(shapes, values),
    ensures
        decode_spec(shapes, encode_spec(shapes, values)) == Ok::<Seq<NativeView>, DecodeErrorView>(
            values,
        ),
{
    let wires = encode_spec(shapes, values);
    lemma_none_rejected(shapes, wires, shapes.len());
    assert forall|i: int| 0 <= i < shapes.len() implies accepts(shapes[i], #[trigger] wires[i]) by {
        assert(conforms(shapes[i], values[i]));
    }
    assert(Seq::new(wires.len(), |i: int| wires[i].payload) =~= values);
}

/// Arity enforcement: a sequence shorter or longer than the field list is
/// never decoded; the error gives both lengths.
pub proof fn lemma_arity_enforced(shapes: Seq<Shape>, wires: Seq<WireView>)
    requires
        wires.len() != shapes.len(),
    ensures
        decode_spec(shapes, wires) == Err::<Seq<NativeView>, DecodeErrorView>(
            DecodeErrorView::Arity { expected: shapes.len() as int, received: wires.len() as int },
        ),
{
}

/// What decodes is valid: a decoded instance is a valid instance of the
/// record, and encoding it gives the decoded sequence back.
pub proof fn lemma_decoded_is_valid(shapes: Seq<Shape>, wires: Seq<WireView>)
    requires
        decode_spec(shapes, wires) is Ok,
    ensures
        valid_instance(shapes, decode_spec(shapes, wires)->Ok_0),
        encode_spec(shapes, decode_spec(shapes, wires)->Ok_0) == wires,
{
    let values = decode_spec(shapes, wires)->Ok_0;
    lemma_none_rejected(shapes, wires, shapes.len());
    assert forall|i: int| 0 <= i < shapes.len() implies conforms(
        shapes[i],
        #[trigger] values[i],
    ) by {
        assert(accepts(shapes[i], wires[i]));
    }
    assert forall|i: int| 0 <= i < wires.len() implies #[trigger] encode_spec(shapes, values)[i]
        == wires[i] by {
        assert(accepts(shapes[i], wires[i]));
    }
    assert(encode_spec(shapes, values) =~= wires);
}

/// Equal shapes, one codec: field lists with the same ordered field
/// shapes have the same valid instances, encode them alike and decode the
/// same sequences alike, whatever their field names.
pub proof fn lemma_equal_shapes_share_a_codec(
    first: Seq<Shape>,
    second: Seq<Shape>,
    values: Seq<NativeView>,
    wires: Seq<WireView>,
)
    requires
        first =~= second,
    ensures
        valid_instance(first, values) == valid_instance(second, values),
        encode_spec(first, values) == encode_spec(second, values),
        decode_spec(first, wires) == decode_spec(second, wires),
{
}

/// An absent optional is accepted: the empty nullable under the tag of an
/// optional shape is never a decode error, whatever the optional holds.
pub proof fn lemma_absent_is_accepted(inner: Shape)
    ensures
        accepts(
            Shape::Optional(Box::new(inner)),
            WireView {
                tag: Shape::Optional(Box::new(inner)),
                payload: NativeView::Nullable(None),
            },
        ),
{
}

/// No duplicate keys: in a mapping that is an instance of a mapping shape,
/// the keys ascend strictly, so an earlier key comes before every later one
/// and no two entries share a key.
pub proof fn lemma_mapping_keys_are_distinct(
    shape: Shape,
    entries: Seq<(ScalarView, NativeView)>,
    i: int,
    j: int,
)
    requires
        shape is Mapping,
        conforms(shape, NativeView::Mapping(entries)),
        0 <= i < j < entries.len(),
    ensures
        key_before(entries[i].0, entries[j].0),
        entries[i].0 != entries[j].0,
    decreases j - i,
{
    let value = NativeView::Mapping(entries);
    assert(value->Mapping_0[j].0 == entries[j].0);
    if i + 1 < j {
        lemma_mapping_keys_are_distinct(shape, entries, i, j - 1);
        assert(value->Mapping_0[j - 1].0 == entries[j - 1].0);
        lemma_key_before_strict(entries[i].0, entries[j - 1].0, entries[j].0);
    } else {
        assert(value->Mapping_0[i].0 == entries[i].0);
    }
    lemma_key_before_strict(entries[i].0, entries[i].0, entries[i].0);
}

} // verus!
