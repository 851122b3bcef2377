use abi_codegen::catalog::RecordDefinition;
use abi_codegen::codec::{check_conforms, decode, decode_fields, encode, encode_fields, DecodeError};
use abi_codegen::codec_deriver::RecordCodec;
use abi_codegen::compiler::TypeCompiler;
use abi_codegen::schema::{NamedField, PrimitiveTag, SchemaTypeNode};
use abi_codegen::sequence::reversed;
use abi_codegen::shape::{shape_of_node, ShapeKey};
use abi_codegen::value::{
    is_bytes_before, is_key_before, scalar_fits, MapEntry, NativeValue, Scalar, WireValue,
};

fn entry(name: &str, ty: SchemaTypeNode) -> NamedField {
    NamedField { name: name.to_string(), ty }
}

fn unsigned(n: u128) -> NativeValue {
    NativeValue::Scalar(Scalar::Unsigned(n))
}

fn bytes(data: &[u8]) -> NativeValue {
    NativeValue::Scalar(Scalar::Bytes(data.to_vec()))
}

fn atom(tag: PrimitiveTag) -> ShapeKey {
    ShapeKey::Atom(tag)
}

fn order_fields() -> Vec<NamedField> {
    vec![
        entry("id", SchemaTypeNode::UInt(64)),
        entry(
            "lines",
            SchemaTypeNode::Array(Box::new(SchemaTypeNode::Tuple(vec![
                entry("sku", SchemaTypeNode::String),
                entry("count", SchemaTypeNode::Int(16)),
            ]))),
        ),
        entry("note", SchemaTypeNode::Optional(Box::new(SchemaTypeNode::Bytes))),
        entry(
            "stock",
            SchemaTypeNode::Mapping(PrimitiveTag::UInt(8), Box::new(SchemaTypeNode::Bool)),
        ),
        entry("seal", SchemaTypeNode::FixedArray(Box::new(SchemaTypeNode::FixedBytes(2)), 2)),
    ]
}

fn order_record() -> RecordDefinition {
    let mut compiler = TypeCompiler::new();
    let index = compiler.compile_record("Order", &order_fields()).unwrap();
    let mut records = compiler.into_catalog();
    records.swap_remove(index)
}

fn order_instance() -> Vec<NativeValue> {
    vec![
        unsigned(9),
        NativeValue::Sequence(vec![
            NativeValue::Record(vec![
                NativeValue::Scalar(Scalar::Text("bolt".to_string())),
                NativeValue::Scalar(Scalar::Signed(-3)),
            ]),
            NativeValue::Record(vec![
                NativeValue::Scalar(Scalar::Text("nut".to_string())),
                NativeValue::Scalar(Scalar::Signed(12)),
            ]),
        ]),
        NativeValue::Nullable(None),
        NativeValue::Mapping(vec![
            MapEntry { key: Scalar::Unsigned(1), value: NativeValue::Scalar(Scalar::Bool(true)) },
            MapEntry { key: Scalar::Unsigned(4), value: NativeValue::Scalar(Scalar::Bool(false)) },
        ]),
        NativeValue::Sequence(vec![bytes(&[1, 2]), bytes(&[3, 4])]),
    ]
}

#[test]
fn round_trip_of_a_nested_instance() {
    let record = order_record();
    let wires = encode(&record, order_instance()).unwrap();
    assert_eq!(wires.len(), 5);
    for (i, field) in order_fields().iter().enumerate() {
        assert_eq!(wires[i].tag, shape_of_node(&field.ty));
    }
    assert_eq!(wires[0].payload, unsigned(9));
    assert_eq!(wires[2].payload, NativeValue::Nullable(None));
    assert_eq!(decode(&record, wires), Ok(order_instance()));
}

#[test]
fn optional_present_and_absent_both_decode() {
    let keys = vec![ShapeKey::Optional(Box::new(atom(PrimitiveTag::UInt(8))))];
    let absent = vec![NativeValue::Nullable(None)];
    let present = vec![NativeValue::Nullable(Some(Box::new(unsigned(200))))];
    let wires = encode_fields(&keys, absent).unwrap();
    assert_eq!(decode_fields(&keys, wires), Ok(vec![NativeValue::Nullable(None)]));
    let wires = encode_fields(&keys, present).unwrap();
    assert_eq!(
        decode_fields(&keys, wires),
        Ok(vec![NativeValue::Nullable(Some(Box::new(unsigned(200))))])
    );
    let too_wide = vec![NativeValue::Nullable(Some(Box::new(unsigned(256))))];
    assert_eq!(encode_fields(&keys, too_wide), None);
}

#[test]
fn arity_is_enforced_both_ways() {
    let record = order_record();
    let mut wires = encode(&record, order_instance()).unwrap();
    wires.pop();
    assert_eq!(decode(&record, wires), Err(DecodeError::Arity { expected: 5, received: 4 }));

    let mut wires = encode(&record, order_instance()).unwrap();
    wires.push(WireValue { tag: atom(PrimitiveTag::Bool), payload: NativeValue::Scalar(Scalar::Bool(true)) });
    assert_eq!(decode(&record, wires), Err(DecodeError::Arity { expected: 5, received: 6 }));

    assert_eq!(decode(&record, Vec::new()), Err(DecodeError::Arity { expected: 5, received: 0 }));

    let mut short = order_instance();
    short.pop();
    assert_eq!(encode(&record, short), None);
}

#[test]
fn wrong_tag_names_expected_and_received() {
    let record = order_record();
    let mut wires = encode(&record, order_instance()).unwrap();
    wires[0] = WireValue { tag: atom(PrimitiveTag::UInt(32)), payload: unsigned(9) };
    assert_eq!(
        decode(&record, wires),
        Err(DecodeError::Mismatch {
            position: 0,
            expected: atom(PrimitiveTag::UInt(64)),
            received: atom(PrimitiveTag::UInt(32)),
        })
    );
}

#[test]
fn right_tag_with_wrong_payload_is_malformed() {
    let record = order_record();
    let mut wires = encode(&record, order_instance()).unwrap();
    wires[2] = WireValue {
        tag: ShapeKey::Optional(Box::new(atom(PrimitiveTag::Bytes))),
        payload: unsigned(1),
    };
    assert_eq!(
        decode(&record, wires),
        Err(DecodeError::Malformed {
            position: 2,
            expected: ShapeKey::Optional(Box::new(atom(PrimitiveTag::Bytes))),
        })
    );
}

#[test]
fn first_bad_value_is_reported() {
    let keys = vec![atom(PrimitiveTag::Bool), atom(PrimitiveTag::Bool), atom(PrimitiveTag::Bool)];
    let wires = vec![
        WireValue { tag: atom(PrimitiveTag::Bool), payload: NativeValue::Scalar(Scalar::Bool(true)) },
        WireValue { tag: atom(PrimitiveTag::Bool), payload: unsigned(1) },
        WireValue { tag: atom(PrimitiveTag::Cell), payload: unsigned(1) },
    ];
    assert_eq!(
        decode_fields(&keys, wires),
        Err(DecodeError::Malformed { position: 1, expected: atom(PrimitiveTag::Bool) })
    );
}

#[test]
fn mapping_keys_must_fit_and_ascend() {
    let shape = ShapeKey::Mapping(PrimitiveTag::UInt(8), Box::new(atom(PrimitiveTag::Bool)));
    let flag = |b: bool| NativeValue::Scalar(Scalar::Bool(b));
    let sorted = NativeValue::Mapping(vec![
        MapEntry { key: Scalar::Unsigned(1), value: flag(true) },
        MapEntry { key: Scalar::Unsigned(2), value: flag(false) },
    ]);
    let duplicate = NativeValue::Mapping(vec![
        MapEntry { key: Scalar::Unsigned(1), value: flag(true) },
        MapEntry { key: Scalar::Unsigned(1), value: flag(false) },
    ]);
    let unsorted = NativeValue::Mapping(vec![
        MapEntry { key: Scalar::Unsigned(2), value: flag(true) },
        MapEntry { key: Scalar::Unsigned(1), value: flag(false) },
    ]);
    let wrong_key = NativeValue::Mapping(vec![MapEntry { key: Scalar::Signed(1), value: flag(true) }]);
    let wide_key = NativeValue::Mapping(vec![MapEntry { key: Scalar::Unsigned(256), value: flag(true) }]);
    let wrong_value = NativeValue::Mapping(vec![MapEntry { key: Scalar::Unsigned(1), value: unsigned(1) }]);
    assert!(check_conforms(&shape, &sorted));
    assert!(check_conforms(&shape, &NativeValue::Mapping(Vec::new())));
    assert!(!check_conforms(&shape, &duplicate));
    assert!(!check_conforms(&shape, &unsorted));
    assert!(!check_conforms(&shape, &wrong_key));
    assert!(!check_conforms(&shape, &wide_key));
    assert!(!check_conforms(&shape, &wrong_value));
    assert!(!check_conforms(&shape, &NativeValue::Sequence(Vec::new())));

    let keys = vec![ShapeKey::Mapping(PrimitiveTag::UInt(8), Box::new(atom(PrimitiveTag::Bool)))];
    let wires = vec![WireValue {
        tag: ShapeKey::Mapping(PrimitiveTag::UInt(8), Box::new(atom(PrimitiveTag::Bool))),
        payload: duplicate,
    }];
    assert_eq!(
        decode_fields(&keys, wires),
        Err(DecodeError::Malformed {
            position: 0,
            expected: ShapeKey::Mapping(PrimitiveTag::UInt(8), Box::new(atom(PrimitiveTag::Bool))),
        })
    );
}

#[test]
fn fixed_array_length_is_checked() {
    let shape = ShapeKey::FixedArray(Box::new(atom(PrimitiveTag::Bool)), 2);
    let flag = |b: bool| NativeValue::Scalar(Scalar::Bool(b));
    assert!(check_conforms(&shape, &NativeValue::Sequence(vec![flag(true), flag(false)])));
    assert!(!check_conforms(&shape, &NativeValue::Sequence(vec![flag(true)])));
    assert!(!check_conforms(&shape, &NativeValue::Sequence(vec![flag(true), unsigned(0)])));
    let open = ShapeKey::Array(Box::new(atom(PrimitiveTag::Bool)));
    assert!(check_conforms(&open, &NativeValue::Sequence(vec![flag(true)])));
    assert!(check_conforms(&open, &NativeValue::Sequence(Vec::new())));
    assert!(!check_conforms(&open, &NativeValue::Record(Vec::new())));
}

#[test]
fn scalars_fit_their_tags() {
    assert!(scalar_fits(PrimitiveTag::UInt(8), &Scalar::Unsigned(255)));
    assert!(!scalar_fits(PrimitiveTag::UInt(8), &Scalar::Unsigned(256)));
    assert!(scalar_fits(PrimitiveTag::UInt(16), &Scalar::Unsigned(65535)));
    assert!(!scalar_fits(PrimitiveTag::UInt(16), &Scalar::Unsigned(65536)));
    assert!(scalar_fits(PrimitiveTag::UInt(32), &Scalar::Unsigned(4294967295)));
    assert!(!scalar_fits(PrimitiveTag::UInt(32), &Scalar::Unsigned(4294967296)));
    assert!(scalar_fits(PrimitiveTag::UInt(64), &Scalar::Unsigned(u64::MAX as u128)));
    assert!(!scalar_fits(PrimitiveTag::UInt(64), &Scalar::Unsigned(u64::MAX as u128 + 1)));
    assert!(scalar_fits(PrimitiveTag::UInt(128), &Scalar::Unsigned(u128::MAX)));
    assert!(scalar_fits(PrimitiveTag::UInt(160), &Scalar::Bytes(vec![0; 20])));
    assert!(!scalar_fits(PrimitiveTag::UInt(160), &Scalar::Bytes(vec![0; 19])));
    assert!(scalar_fits(PrimitiveTag::UInt(256), &Scalar::Bytes(vec![0; 32])));
    assert!(!scalar_fits(PrimitiveTag::UInt(256), &Scalar::Unsigned(1)));
    assert!(scalar_fits(PrimitiveTag::UInt(24), &Scalar::Bytes(vec![1, 2, 3])));
    assert!(scalar_fits(PrimitiveTag::Int(8), &Scalar::Signed(-128)));
    assert!(scalar_fits(PrimitiveTag::Int(8), &Scalar::Signed(127)));
    assert!(!scalar_fits(PrimitiveTag::Int(8), &Scalar::Signed(128)));
    assert!(!scalar_fits(PrimitiveTag::Int(8), &Scalar::Signed(-129)));
    assert!(scalar_fits(PrimitiveTag::Int(64), &Scalar::Signed(i64::MIN as i128)));
    assert!(!scalar_fits(PrimitiveTag::Int(64), &Scalar::Signed(i64::MIN as i128 - 1)));
    assert!(scalar_fits(PrimitiveTag::Int(128), &Scalar::Signed(i128::MIN)));
    assert!(scalar_fits(PrimitiveTag::Int(256), &Scalar::Bytes(vec![9])));
    assert!(!scalar_fits(PrimitiveTag::Int(16), &Scalar::Unsigned(1)));
    assert!(scalar_fits(PrimitiveTag::Bool, &Scalar::Bool(false)));
    assert!(!scalar_fits(PrimitiveTag::Bool, &Scalar::Unsigned(0)));
    assert!(scalar_fits(PrimitiveTag::FixedBytes(2), &Scalar::Bytes(vec![1, 2])));
    assert!(!scalar_fits(PrimitiveTag::FixedBytes(2), &Scalar::Bytes(vec![1])));
    assert!(scalar_fits(PrimitiveTag::String, &Scalar::Text("x".to_string())));
    assert!(!scalar_fits(PrimitiveTag::String, &Scalar::Bytes(vec![1])));
    assert!(scalar_fits(PrimitiveTag::Token, &Scalar::Unsigned(7)));
    assert!(scalar_fits(PrimitiveTag::VarUInt(16), &Scalar::Bytes(vec![1])));
    assert!(scalar_fits(PrimitiveTag::VarInt(16), &Scalar::Bytes(vec![1])));
    assert!(scalar_fits(PrimitiveTag::Address, &Scalar::Bytes(vec![1])));
    assert!(scalar_fits(PrimitiveTag::Cell, &Scalar::Bytes(Vec::new())));
    assert!(!scalar_fits(PrimitiveTag::Cell, &Scalar::Text(String::new())));
}

#[test]
fn keys_are_ordered_by_value_and_bytes() {
    assert!(is_key_before(&Scalar::Unsigned(1), &Scalar::Unsigned(2)));
    assert!(!is_key_before(&Scalar::Unsigned(2), &Scalar::Unsigned(2)));
    assert!(is_key_before(&Scalar::Signed(-5), &Scalar::Signed(3)));
    assert!(!is_key_before(&Scalar::Signed(3), &Scalar::Unsigned(4)));
    assert!(is_key_before(&Scalar::Bytes(vec![1, 2]), &Scalar::Bytes(vec![1, 3])));
    assert!(is_bytes_before(&vec![1, 2], &vec![1, 2, 0]));
    assert!(!is_bytes_before(&vec![1, 2, 0], &vec![1, 2]));
    assert!(!is_bytes_before(&vec![1, 2], &vec![1, 2]));
    assert!(is_bytes_before(&vec![], &vec![0]));
    assert!(!is_bytes_before(&vec![], &vec![]));
    assert!(is_bytes_before(&vec![0, 9], &vec![1]));
    assert!(!is_bytes_before(&vec![2], &vec![1, 9]));
}

#[test]
fn reversed_turns_the_order_round() {
    assert_eq!(reversed(vec![1, 2, 3]), vec![3, 2, 1]);
    assert_eq!(reversed(Vec::<u8>::new()), Vec::<u8>::new());
}

#[test]
fn derived_codec_gives_wire_type_and_both_transforms() {
    let record = order_record();
    let fields: Vec<ShapeKey> = order_fields().iter().map(|f| shape_of_node(&f.ty)).collect();
    let codec = RecordCodec::derive(&record);
    assert_eq!(codec.wire_type(), ShapeKey::Tuple(fields));
    let expected: Vec<ShapeKey> = order_fields().iter().map(|f| shape_of_node(&f.ty)).collect();
    assert_eq!(codec, RecordCodec { fields: expected });

    assert_eq!(codec.encode(order_instance()), Some(encode(&record, order_instance()).unwrap()));
    let wires = codec.encode(order_instance()).unwrap();
    assert_eq!(codec.decode(wires), Ok(order_instance()));
    assert_eq!(codec.decode(Vec::new()), Err(DecodeError::Arity { expected: 5, received: 0 }));
    assert_eq!(codec.encode(Vec::new()), None);
}
