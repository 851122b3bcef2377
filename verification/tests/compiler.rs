use abi_codegen::assembler::assemble;
use abi_codegen::compiler::{CompileErrorKind, TypeCompiler};
use abi_codegen::native::{native_type_for, NativeRepr, NativeType};
use abi_codegen::schema::{
    is_plain_key, HeaderKind, NamedField, PrimitiveTag, Schema, SchemaFunction, SchemaTypeNode,
};
use abi_codegen::shape::{shape_of_node, tuple_shape_of, ShapeKey};

fn named(name: &str, ty: SchemaTypeNode) -> NamedField {
    NamedField { name: name.to_string(), ty }
}

fn pair(first: &str, second: &str, width: u16) -> SchemaTypeNode {
    SchemaTypeNode::Tuple(vec![
        named(first, SchemaTypeNode::UInt(width)),
        named(second, SchemaTypeNode::Bool),
    ])
}

fn call(name: &str, inputs: Vec<NamedField>, outputs: Vec<NamedField>) -> SchemaFunction {
    SchemaFunction { name: name.to_string(), inputs, outputs, input_selector: 1, output_selector: 2 }
}

fn contract(functions: Vec<SchemaFunction>) -> Schema {
    Schema {
        abi_version_major: 2,
        abi_version_minor: 2,
        headers: vec![HeaderKind::PublicKey],
        functions,
    }
}

fn sample_functions() -> Vec<SchemaFunction> {
    vec![
        call(
            "send_tokens",
            vec![
                named("dest", SchemaTypeNode::Address),
                named("amounts", SchemaTypeNode::Array(Box::new(pair("value", "ok", 64)))),
            ],
            vec![named("rest", SchemaTypeNode::Optional(Box::new(SchemaTypeNode::Token)))],
        ),
        call(
            "balances",
            vec![],
            vec![named(
                "by_owner",
                SchemaTypeNode::Mapping(PrimitiveTag::Address, Box::new(pair("a", "b", 64))),
            )],
        ),
    ]
}

#[test]
fn primitive_table_maps_every_tag() {
    assert_eq!(native_type_for(PrimitiveTag::UInt(8)), NativeRepr::U8);
    assert_eq!(native_type_for(PrimitiveTag::UInt(16)), NativeRepr::U16);
    assert_eq!(native_type_for(PrimitiveTag::UInt(32)), NativeRepr::U32);
    assert_eq!(native_type_for(PrimitiveTag::UInt(64)), NativeRepr::U64);
    assert_eq!(native_type_for(PrimitiveTag::UInt(128)), NativeRepr::U128);
    assert_eq!(native_type_for(PrimitiveTag::UInt(160)), NativeRepr::Bytes20);
    assert_eq!(native_type_for(PrimitiveTag::UInt(256)), NativeRepr::Hash32);
    assert_eq!(native_type_for(PrimitiveTag::UInt(24)), NativeRepr::BigUint);
    assert_eq!(native_type_for(PrimitiveTag::Int(8)), NativeRepr::I8);
    assert_eq!(native_type_for(PrimitiveTag::Int(16)), NativeRepr::I16);
    assert_eq!(native_type_for(PrimitiveTag::Int(32)), NativeRepr::I32);
    assert_eq!(native_type_for(PrimitiveTag::Int(64)), NativeRepr::I64);
    assert_eq!(native_type_for(PrimitiveTag::Int(128)), NativeRepr::I128);
    assert_eq!(native_type_for(PrimitiveTag::Int(256)), NativeRepr::BigInt);
    assert_eq!(native_type_for(PrimitiveTag::VarUInt(16)), NativeRepr::BigUint);
    assert_eq!(native_type_for(PrimitiveTag::VarInt(16)), NativeRepr::BigUint);
    assert_eq!(native_type_for(PrimitiveTag::Bool), NativeRepr::Bool);
    assert_eq!(native_type_for(PrimitiveTag::Bytes), NativeRepr::ByteVec);
    assert_eq!(native_type_for(PrimitiveTag::FixedBytes(4)), NativeRepr::ByteVec);
    assert_eq!(native_type_for(PrimitiveTag::String), NativeRepr::Text);
    assert_eq!(native_type_for(PrimitiveTag::Token), NativeRepr::Tokens);
    assert_eq!(native_type_for(PrimitiveTag::Address), NativeRepr::Address);
    assert_eq!(native_type_for(PrimitiveTag::Cell), NativeRepr::Cell);
}

#[test]
fn plain_keys_are_integers_and_addresses() {
    assert!(is_plain_key(PrimitiveTag::UInt(32)));
    assert!(is_plain_key(PrimitiveTag::Int(8)));
    assert!(is_plain_key(PrimitiveTag::Address));
    assert!(!is_plain_key(PrimitiveTag::Bool));
    assert!(!is_plain_key(PrimitiveTag::String));
    assert!(!is_plain_key(PrimitiveTag::Bytes));
}

#[test]
fn shape_erases_names_and_keeps_widths() {
    assert_eq!(shape_of_node(&pair("x", "y", 32)), shape_of_node(&pair("left", "right", 32)));
    assert_ne!(shape_of_node(&pair("x", "y", 32)), shape_of_node(&pair("x", "y", 64)));
    assert_eq!(
        shape_of_node(&pair("x", "y", 32)),
        ShapeKey::Tuple(vec![
            ShapeKey::Atom(PrimitiveTag::UInt(32)),
            ShapeKey::Atom(PrimitiveTag::Bool),
        ])
    );
    assert_eq!(
        shape_of_node(&SchemaTypeNode::FixedArray(Box::new(SchemaTypeNode::Bytes), 3)),
        ShapeKey::FixedArray(Box::new(ShapeKey::Atom(PrimitiveTag::Bytes)), 3)
    );
    assert_ne!(
        shape_of_node(&SchemaTypeNode::FixedArray(Box::new(SchemaTypeNode::Bytes), 3)),
        shape_of_node(&SchemaTypeNode::Array(Box::new(SchemaTypeNode::Bytes)))
    );
    assert_eq!(
        shape_of_node(&SchemaTypeNode::Mapping(
            PrimitiveTag::Int(16),
            Box::new(SchemaTypeNode::Optional(Box::new(SchemaTypeNode::Cell))),
        )),
        ShapeKey::Mapping(
            PrimitiveTag::Int(16),
            Box::new(ShapeKey::Optional(Box::new(ShapeKey::Atom(PrimitiveTag::Cell)))),
        )
    );
    assert_eq!(
        tuple_shape_of(&vec![named("only", SchemaTypeNode::VarUInt(16))]),
        ShapeKey::Tuple(vec![ShapeKey::Atom(PrimitiveTag::VarUInt(16))])
    );
}

#[test]
fn shape_keys_compare_and_copy() {
    let key = shape_of_node(&SchemaTypeNode::Array(Box::new(pair("x", "y", 32))));
    let other = shape_of_node(&SchemaTypeNode::Array(Box::new(pair("x", "y", 16))));
    assert!(key.same(&key.duplicate()));
    assert!(!key.same(&other));
    assert_eq!(key.duplicate(), key);
}

#[test]
fn reference_is_transparent() {
    let plain = pair("x", "y", 32);
    let wrapped = SchemaTypeNode::Ref(Box::new(pair("x", "y", 32)));
    assert_eq!(shape_of_node(&wrapped), shape_of_node(&plain));

    let mut direct = TypeCompiler::new();
    let mut through = TypeCompiler::new();
    let a = direct.compile(Some("point".to_string()), &plain).unwrap();
    let b = through.compile(Some("point".to_string()), &wrapped).unwrap();
    assert_eq!(a, b);
    assert_eq!(direct.catalog().len(), 1);
    assert_eq!(through.catalog().len(), 1);
    assert_eq!(direct.catalog()[0].name, through.catalog()[0].name);
    assert_eq!(direct.catalog()[0].shape, through.catalog()[0].shape);

    let again = direct.compile(Some("other".to_string()), &wrapped).unwrap();
    assert_eq!(again, a);
    assert_eq!(direct.catalog().len(), 1);
}

#[test]
fn equal_shapes_share_one_record_whatever_the_names() {
    let mut compiler = TypeCompiler::new();
    let first = compiler.compile(Some("first_pair".to_string()), &pair("x", "y", 32)).unwrap();
    let second = compiler.compile(Some("second_pair".to_string()), &pair("left", "right", 32)).unwrap();
    assert_eq!(first, NativeType::Record(0));
    assert_eq!(second, NativeType::Record(0));
    assert_eq!(compiler.len(), 1);
    assert_eq!(compiler.catalog()[0].name, "FirstPair");
    assert_eq!(compiler.catalog()[0].properties[0].wire_name, "x");
    assert_eq!(compiler.catalog()[0].properties[1].wire_name, "y");

    let third = compiler.compile(Some("third".to_string()), &pair("x", "y", 64)).unwrap();
    assert_eq!(third, NativeType::Record(1));
    assert_eq!(compiler.len(), 2);
}

#[test]
fn wrappers_compile_what_they_hold() {
    let mut compiler = TypeCompiler::new();
    let list = SchemaTypeNode::Array(Box::new(pair("x", "y", 8)));
    assert_eq!(
        compiler.compile(None, &list).unwrap(),
        NativeType::Sequence(Box::new(NativeType::Record(0)))
    );
    let fixed = SchemaTypeNode::FixedArray(Box::new(pair("p", "q", 8)), 4);
    assert_eq!(
        compiler.compile(None, &fixed).unwrap(),
        NativeType::Sequence(Box::new(NativeType::Record(0)))
    );
    let maybe = SchemaTypeNode::Optional(Box::new(SchemaTypeNode::String));
    assert_eq!(
        compiler.compile(None, &maybe).unwrap(),
        NativeType::Nullable(Box::new(NativeType::Primitive(NativeRepr::Text)))
    );
    assert_eq!(compiler.len(), 1);
    assert_eq!(compiler.catalog()[0].name, "Item");
    assert_eq!(compiler.lookup(&shape_of_node(&pair("a", "b", 8))), Some(0));
    assert_eq!(compiler.lookup(&shape_of_node(&pair("a", "b", 16))), None);
}

#[test]
fn map_key_restriction() {
    let mut compiler = TypeCompiler::new();
    let bad = SchemaTypeNode::Mapping(PrimitiveTag::String, Box::new(SchemaTypeNode::Bool));
    let error = compiler.compile(Some("flags".to_string()), &bad).unwrap_err();
    assert_eq!(error.kind, CompileErrorKind::UnsupportedMapKey(PrimitiveTag::String));
    assert_eq!(error.subject, "flags");
    assert_eq!(compiler.len(), 0);

    let good = SchemaTypeNode::Mapping(PrimitiveTag::UInt(32), Box::new(SchemaTypeNode::Bool));
    assert_eq!(
        compiler.compile(Some("flags".to_string()), &good).unwrap(),
        NativeType::Mapping(
            Box::new(NativeType::Primitive(NativeRepr::U32)),
            Box::new(NativeType::Primitive(NativeRepr::Bool)),
        )
    );
}

#[test]
fn failure_leaves_the_catalog_untouched() {
    let mut compiler = TypeCompiler::new();
    compiler.compile(Some("kept".to_string()), &pair("x", "y", 8)).unwrap();
    let broken = SchemaTypeNode::Tuple(vec![
        named("fine", pair("x", "y", 16)),
        named(
            "bad",
            SchemaTypeNode::Mapping(PrimitiveTag::Bool, Box::new(SchemaTypeNode::Bool)),
        ),
    ]);
    let error = compiler.compile(Some("outer".to_string()), &broken).unwrap_err();
    assert_eq!(error.kind, CompileErrorKind::UnsupportedMapKey(PrimitiveTag::Bool));
    assert_eq!(error.subject, "outer.bad");
    assert_eq!(compiler.len(), 1);
    assert_eq!(compiler.catalog()[0].name, "Kept");
}

#[test]
fn name_collision_is_qualified_or_reported() {
    let mut compiler = TypeCompiler::new();
    compiler.compile(Some("item".to_string()), &pair("x", "y", 8)).unwrap();
    let error = compiler.compile(Some("item".to_string()), &pair("x", "y", 16)).unwrap_err();
    assert_eq!(error.kind, CompileErrorKind::ShapeCollision);
    assert_eq!(error.subject, "Item");
    assert_eq!(compiler.len(), 1);

    let holder = vec![named("item", pair("x", "y", 16))];
    let index = compiler.compile_record("Holder", &holder).unwrap();
    assert_eq!(index, 2);
    assert_eq!(compiler.catalog()[1].name, "HolderItem");
    assert_eq!(compiler.catalog()[2].name, "Holder");
    assert_eq!(compiler.choose_name("Holder", "Item"), None);
    assert_eq!(compiler.choose_name("Other", "Item"), Some("OtherItem".to_string()));
    assert_eq!(compiler.choose_name("Other", "Fresh"), Some("Fresh".to_string()));
    assert!(compiler.name_in_use(&"HolderItem".to_string()));
    assert!(!compiler.name_in_use(&"Missing".to_string()));
}

#[test]
fn rewind_cuts_the_catalog_back() {
    let mut compiler = TypeCompiler::new();
    compiler.compile(Some("a".to_string()), &pair("x", "y", 8)).unwrap();
    compiler.compile(Some("b".to_string()), &pair("x", "y", 16)).unwrap();
    compiler.rewind(1);
    assert_eq!(compiler.len(), 1);
    let records = compiler.into_catalog();
    assert_eq!(records.len(), 1);
    assert_eq!(records[0].name, "A");
}

#[test]
fn compiling_twice_gives_the_same_records() {
    let one = assemble(&contract(sample_functions()));
    let two = assemble(&contract(sample_functions()));
    assert!(one.failures.is_empty());
    assert_eq!(one.records.len(), 5);
    assert_eq!(one.records.len(), two.records.len());
    for i in 0..one.records.len() {
        assert_eq!(one.records[i].name, two.records[i].name);
        assert_eq!(one.records[i].shape, two.records[i].shape);
        assert_eq!(one.records[i].properties.len(), two.records[i].properties.len());
        for k in 0..one.records[i].properties.len() {
            assert_eq!(one.records[i].properties[k].wire_name, two.records[i].properties[k].wire_name);
            assert_eq!(one.records[i].properties[k].native, two.records[i].properties[k].native);
            assert_eq!(
                one.records[i].properties[k].is_composite,
                two.records[i].properties[k].is_composite
            );
        }
    }
    let names: Vec<&str> = one.records.iter().map(|r| r.name.as_str()).collect();
    assert_eq!(
        names,
        vec![
            "SendTokensFunctionInputItem",
            "SendTokensFunctionInput",
            "SendTokensFunctionOutput",
            "BalancesFunctionInput",
            "BalancesFunctionOutput",
        ]
    );
    assert_eq!(one.functions[0].input_record, 1);
    assert_eq!(one.functions[1].output_record, 4);
    assert_eq!(
        one.records[4].properties[0].native,
        NativeType::Mapping(
            Box::new(NativeType::Primitive(NativeRepr::Address)),
            Box::new(NativeType::Record(0)),
        )
    );
}

#[test]
fn duplicate_function_is_a_failure_of_its_own() {
    let assembly = assemble(&contract(vec![
        call("get", vec![named("a", SchemaTypeNode::Bool)], vec![]),
        call("get", vec![named("b", SchemaTypeNode::Bytes)], vec![]),
        call("put", vec![named("c", SchemaTypeNode::Cell)], vec![]),
    ]));
    assert_eq!(assembly.functions.len(), 2);
    assert_eq!(assembly.functions[0].name, "get");
    assert_eq!(assembly.functions[1].name, "put");
    assert_eq!(assembly.failures.len(), 1);
    assert_eq!(assembly.failures[0].kind, CompileErrorKind::DuplicateFunction);
    assert_eq!(assembly.failures[0].subject, "get");
}

#[test]
fn failed_function_publishes_no_record() {
    let assembly = assemble(&contract(vec![
        call(
            "broken",
            vec![named("fine", pair("x", "y", 8))],
            vec![named(
                "bad",
                SchemaTypeNode::Mapping(PrimitiveTag::Cell, Box::new(SchemaTypeNode::Bool)),
            )],
        ),
        call("sound", vec![named("fine", pair("x", "y", 8))], vec![]),
    ]));
    assert_eq!(assembly.failures.len(), 1);
    assert_eq!(assembly.failures[0].kind, CompileErrorKind::UnsupportedMapKey(PrimitiveTag::Cell));
    assert_eq!(assembly.failures[0].subject, "BrokenFunctionOutput.bad");
    assert_eq!(assembly.functions.len(), 1);
    let names: Vec<&str> = assembly.records.iter().map(|r| r.name.as_str()).collect();
    assert_eq!(names, vec!["Fine", "SoundFunctionInput", "SoundFunctionOutput"]);
}

#[test]
fn failure_names_the_field_that_holds_the_mapping() {
    let mut compiler = TypeCompiler::new();
    let fields = vec![
        named("fine", SchemaTypeNode::Bool),
        named(
            "limits",
            SchemaTypeNode::Optional(Box::new(SchemaTypeNode::Array(Box::new(
                SchemaTypeNode::Mapping(PrimitiveTag::Bytes, Box::new(SchemaTypeNode::Bool)),
            )))),
        ),
    ];
    let error = compiler.compile_record("Holder", &fields).unwrap_err();
    assert_eq!(error.kind, CompileErrorKind::UnsupportedMapKey(PrimitiveTag::Bytes));
    assert_eq!(error.subject, "Holder.limits");
    assert_eq!(compiler.len(), 0);

    let error = compiler
        .compile(
            None,
            &SchemaTypeNode::Mapping(PrimitiveTag::Token, Box::new(SchemaTypeNode::Bool)),
        )
        .unwrap_err();
    assert_eq!(error.kind, CompileErrorKind::UnsupportedMapKey(PrimitiveTag::Token));
    assert_eq!(error.subject, "");
}

#[test]
fn failure_names_the_whole_field_path() {
    let deep = SchemaTypeNode::Tuple(vec![named(
        "inner",
        SchemaTypeNode::Array(Box::new(SchemaTypeNode::Tuple(vec![
            named("fine", SchemaTypeNode::Bool),
            named(
                "bad",
                SchemaTypeNode::Mapping(PrimitiveTag::Bool, Box::new(SchemaTypeNode::Bool)),
            ),
        ]))),
    )]);
    let assembly = assemble(&contract(vec![call(
        "send",
        vec![named("first", SchemaTypeNode::Bool), named("outer", deep)],
        vec![],
    )]));
    assert!(assembly.functions.is_empty());
    assert!(assembly.records.is_empty());
    assert_eq!(assembly.failures.len(), 1);
    assert_eq!(assembly.failures[0].kind, CompileErrorKind::UnsupportedMapKey(PrimitiveTag::Bool));
    assert_eq!(assembly.failures[0].subject, "SendFunctionInput.outer.inner.bad");
}
