//! Native values and tagged wire values.

use vstd::prelude::*;
use crate::schema::PrimitiveTag;
use crate::shape::{Shape, ShapeKey};

verus! {

/// The payload of a primitive value.  Integers of up to 128 bits are held
/// as numbers; wider and variable-width integers, hashes, addresses and
/// cells are held as the bytes that the wire layer gives and takes.
#[derive(Debug, PartialEq, Eq)]
pub enum Scalar {
    Unsigned(u128),
    Signed(i128),
    Bool(bool),
    Bytes(Vec<u8>),
    Text(String),
}

/// Model of a [`Scalar`].
pub ghost enum ScalarView {
    Unsigned(u128),
    Signed(i128),
    Bool(bool),
    Bytes(Seq<u8>),
    Text(Seq<char>),
}

impl View for Scalar {
    type V = ScalarView;

    open spec fn view(&self) -> ScalarView {
        match self {
            Scalar::Unsigned(n) => ScalarView::Unsigned(*n),
            Scalar::Signed(n) => ScalarView::Signed(*n),
            Scalar::Bool(b) => ScalarView::Bool(*b),
            Scalar::Bytes(bytes) => ScalarView::Bytes(bytes@),
            Scalar::Text(text) => ScalarView::Text(text@),
        }
    }
}

/// One entry of a native mapping.
#[derive(Debug, PartialEq, Eq)]
pub struct MapEntry {
    pub key: Scalar,
    pub value: NativeValue,
}

/// An instance of a compiled type.
#[derive(Debug, PartialEq, Eq)]
pub enum NativeValue {
    Scalar(Scalar),
    /// The fields of a record, in field order.
    Record(Vec<NativeValue>),
    Sequence(Vec<NativeValue>),
    Nullable(Option<Box<NativeValue>>),
    /// The entries of a mapping, in ascending key order.
    Mapping(Vec<MapEntry>),
}

/// Model of a [`NativeValue`].
pub ghost enum NativeView {
    Scalar(ScalarView),
    Record(Seq<NativeView>),
    Sequence(Seq<NativeView>),
    Nullable(Option<Box<NativeView>>),
    Mapping(Seq<(ScalarView, NativeView)>),
}

/// The model of a native value, child by child.
pub open spec fn native_view(value: NativeValue) -> NativeView
    decreases value,
{
    match value {
        NativeValue::Scalar(s) => NativeView::Scalar(s@),
        NativeValue::Record(items) => NativeView::Record(
            Seq::new(
                items@.len(),
                |i: int|
                    if 0 <= i < items@.len() {
                        native_view(items@[i])
                    } else {
                        NativeView::Nullable(None)
                    },
            ),
        ),
        NativeValue::Sequence(items) => NativeView::Sequence(
            Seq::new(
                items@.len(),
                |i: int|
                    if 0 <= i < items@.len() {
                        native_view(items@[i])
                    } else {
                        NativeView::Nullable(None)
                    },
            ),
        ),
        NativeValue::Nullable(inner) => match inner {
            Some(held) => NativeView::Nullable(Some(Box::new(native_view(*held)))),
            None => NativeView::Nullable(None),
        },
        NativeValue::Mapping(entries) => NativeView::Mapping(
            Seq::new(
                entries@.len(),
                |i: int|
                    if 0 <= i < entries@.len() {
                        (entries@[i].key@, native_view(entries@[i].value))
                    } else {
                        (ScalarView::Bool(false), NativeView::Nullable(None))
                    },
            ),
        ),
    }
}

impl View for NativeValue {
    type V = NativeView;

    open spec fn view(&self) -> NativeView {
        native_view(*self)
    }
}

/// The models of a list of native values, in order.
pub open spec fn values_view(items: Seq<NativeValue>) -> Seq<NativeView> {
    Seq::new(items.len(), |i: int| items[i]@)
}

/// A tagged value: a payload together with the shape that types it.
#[derive(Debug, PartialEq, Eq)]
pub struct WireValue {
    pub tag: ShapeKey,
    pub payload: NativeValue,
}

/// Model of a [`WireValue`].
pub ghost struct WireView {
    pub tag: Shape,
    pub payload: NativeView,
}

impl View for WireValue {
    type V = WireView;

    open spec fn view(&self) -> WireView {
        WireView { tag: self.tag@, payload: self.payload@ }
    }
}

/// The models of a list of wire values, in order.
pub open spec fn wires_view(wires: Seq<WireValue>) -> Seq<WireView> {
    Seq::new(wires.len(), |i: int| wires[i]@)
}

/// The largest value of an unsigned integer that is held as a number.
pub open spec fn max_unsigned(width: u16) -> u128 {
    if width == 8 {
        0xff
    } else if width == 16 {
        0xffff
    } else if width == 32 {
        0xffff_ffff
    } else if width == 64 {
        0xffff_ffff_ffff_ffff
    } else {
        u128::MAX
    }
}

/// The largest value of a signed integer that is held as a number.
pub open spec fn max_signed(width: u16) -> i128 {
    if width == 8 {
        0x7f
    } else if width == 16 {
        0x7fff
    } else if width == 32 {
        0x7fff_ffff
    } else if width == 64 {
        0x7fff_ffff_ffff_ffff
    } else {
        i128::MAX
    }
}

/// Whether integers of the width are held as numbers.
pub open spec fn machine_width(width: u16) -> bool {
    width == 8 || width == 16 || width == 32 || width == 64 || width == 128
}

/// Whether a payload is a value of a primitive type.
pub open spec fn fits(tag: PrimitiveTag, s: ScalarView) -> bool {
    match tag {
        PrimitiveTag::UInt(w) => if machine_width(w) {
            s is Unsigned && s->Unsigned_0 <= max_unsigned(w)
        } else if w == 160 {
            s is Bytes && s->Bytes_0.len() == 20
        } else if w == 256 {
            s is Bytes && s->Bytes_0.len() == 32
        } else {
            s is Bytes
        },
        PrimitiveTag::Int(w) => if machine_width(w) {
            s is Signed && -max_signed(w) - 1 <= s->Signed_0 <= max_signed(w)
        } else {
            s is Bytes
        },
        PrimitiveTag::VarUInt(_) => s is Bytes,
        PrimitiveTag::VarInt(_) => s is Bytes,
        PrimitiveTag::Bool => s is Bool,
        PrimitiveTag::Cell => s is Bytes,
        PrimitiveTag::Address => s is Bytes,
        PrimitiveTag::Bytes => s is Bytes,
        PrimitiveTag::FixedBytes(len) => s is Bytes && s->Bytes_0.len() == len,
        PrimitiveTag::String => s is Text,
        PrimitiveTag::Token => s is Unsigned,
    }
}

/// Decides [`fits`].
pub fn scalar_fits(tag: PrimitiveTag, s: &Scalar) -> (r: bool)
    ensures
        r == fits(tag, s@),
{
    match tag {
        PrimitiveTag::UInt(w) => {
            if w == 8 || w == 16 || w == 32 || w == 64 || w == 128 {
                let max: u128 = if w == 8 {
                    0xff
                } else if w == 16 {
                    0xffff
                } else if w == 32 {
                    0xffff_ffff
                } else if w == 64 {
                    0xffff_ffff_ffff_ffff
                } else {
                    u128::MAX
                };
                match s {
                    Scalar::Unsigned(n) => *n <= max,
                    _ => false,
                }
            } else {
                match s {
                    Scalar::Bytes(bytes) => if w == 160 {
                        bytes.len() == 20
                    } else if w == 256 {
                        bytes.len() == 32
                    } else {
                        true
                    },
                    _ => false,
                }
            }
        },
        PrimitiveTag::Int(w) => {
            if w == 8 || w == 16 || w == 32 || w == 64 || w == 128 {
                let max: i128 = if w == 8 {
                    0x7f
                } else if w == 16 {
                    0x7fff
                } else if w == 32 {
                    0x7fff_ffff
                } else if w == 64 {
                    0x7fff_ffff_ffff_ffff
                } else {
                    i128::MAX
                };
                match s {
                    Scalar::Signed(n) => -max - 1 <= *n && *n <= max,
                    _ => false,
                }
            } else {
                match s {
                    Scalar::Bytes(_) => true,
                    _ => false,
                }
            }
        },
        PrimitiveTag::Bool => match s {
            Scalar::Bool(_) => true,
            _ => false,
        },
        PrimitiveTag::FixedBytes(len) => match s {
            Scalar::Bytes(bytes) => bytes.len() == len,
            _ => false,
        },
        PrimitiveTag::String => match s {
            Scalar::Text(_) => true,
            _ => false,
        },
        PrimitiveTag::Token => match s {
            Scalar::Unsigned(_) => true,
            _ => false,
        },
        _ => match s {
            Scalar::Bytes(_) => true,
            _ => false,
        },
    }
}

/// Lexicographic order on byte strings.
pub open spec fn bytes_before(x: Seq<u8>, y: Seq<u8>) -> bool
    decreases x.len(),
{
    if y.len() == 0 {
        false
    } else if x.len() == 0 {
        true
    } else if x[0] != y[0] {
        x[0] < y[0]
    } else {
        bytes_before(x.skip(1), y.skip(1))
    }
}

/// The order of mapping keys: numbers by value, byte strings
/// lexicographically; keys of different kinds are not ordered.
pub open spec fn key_before(a: ScalarView, b: ScalarView) -> bool {
    match (a, b) {
        (ScalarView::Unsigned(x), ScalarView::Unsigned(y)) => x < y,
        (ScalarView::Signed(x), ScalarView::Signed(y)) => x < y,
        (ScalarView::Bytes(x), ScalarView::Bytes(y)) => bytes_before(x, y),
        _ => false,
    }
}

/// Decides [`bytes_before`].
pub fn is_bytes_before(x: &Vec<u8>, y: &Vec<u8>) -> (r: bool)
    ensures
        r == bytes_before(x@, y@),
{
    let mut i: usize = 0;
    assert(x@.skip(0) =~= x@ && y@.skip(0) =~= y@);
    while i < x.len() && i < y.len()
        invariant
            i <= x.len(),
            i <= y.len(),
            bytes_before(x@, y@) == bytes_before(x@.skip(i as int), y@.skip(i as int)),
        decreases x.len() - i,
    {
        if x[i] != y[i] {
            return x[i] < y[i];
        }
        proof {
            assert(x@.skip(i as int).skip(1) =~= x@.skip(i + 1));
            assert(y@.skip(i as int).skip(1) =~= y@.skip(i + 1));
        }
        i = i + 1;
    }
    i < y.len()
}

/// Decides [`key_before`].
pub fn is_key_before(a: &Scalar, b: &Scalar) -> (r: bool)
    ensures
        r == key_before(a@, b@),
{
    match (a, b) {
        (Scalar::Unsigned(x), Scalar::Unsigned(y)) => *x < *y,
        (Scalar::Signed(x), Scalar::Signed(y)) => *x < *y,
        (Scalar::Bytes(x), Scalar::Bytes(y)) => is_bytes_before(x, y),
        _ => false,
    }
}

/// No byte string comes before itself.
pub proof fn lemma_bytes_before_irreflexive(x: Seq<u8>)
    ensures
        !bytes_before(x, x),
    decreases x.len(),
{
    if x.len() > 0 {
        lemma_bytes_before_irreflexive(x.skip(1));
    }
}

/// The order on byte strings is transitive.
pub proof fn lemma_bytes_before_transitive(x: Seq<u8>, y: Seq<u8>, z: Seq<u8>)
    requires
        bytes_before(x, y),
        bytes_before(y, z),
    ensures
        bytes_before(x, z),
    decreases x.len(),
{
    if x.len() > 0 && x[0] == y[0] && y[0] == z[0] {
        lemma_bytes_before_transitive(x.skip(1), y.skip(1), z.skip(1));
    }
}

/// The order on keys is strict: no key comes before itself, and the order
/// is transitive.
pub proof fn lemma_key_before_strict(a: ScalarView, b: ScalarView, c: ScalarView)
    ensures
        !key_before(a, a),
        key_before(a, b) && key_before(b, c) ==> key_before(a, c),
{
    if a is Bytes {
        lemma_bytes_before_irreflexive(a->Bytes_0);
        if key_before(a, b) && key_before(b, c) {
            lemma_bytes_before_transitive(a->Bytes_0, b->Bytes_0, c->Bytes_0);
        }
    }
}

} // verus!
