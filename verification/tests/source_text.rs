use abi_codegen::assembler::assemble;
use abi_codegen::module_gen::{generate_module, header_name, record_origins};
use abi_codegen::quote_traits::{
    abi_value_of, arity_guard, from_field, into_field, make_abi_type, quote_abi_type, quote_abi_value,
    quote_atom, quote_tuple_type, TraitImplGen,
};
use abi_codegen::schema::{
    HeaderKind, NamedField, PrimitiveTag, Schema, SchemaFunction, SchemaTypeNode,
};
use abi_codegen::struct_gen::{accessor, generate_func_body, generate_model, model_field};
use abi_codegen::text::{decimal, quoted};

fn part(name: &str, ty: SchemaTypeNode) -> NamedField {
    NamedField { name: name.to_string(), ty }
}

fn transfer_inputs() -> Vec<NamedField> {
    vec![part("toAddress", SchemaTypeNode::Address), part("amount", SchemaTypeNode::UInt(128))]
}

#[test]
fn numbers_are_written_in_decimal() {
    assert_eq!(decimal(0), "0");
    assert_eq!(decimal(7), "7");
    assert_eq!(decimal(10), "10");
    assert_eq!(decimal(128), "128");
    assert_eq!(decimal(9075), "9075");
    assert_eq!(decimal(u64::MAX), "18446744073709551615");
}

#[test]
fn texts_are_written_as_string_literals() {
    assert_eq!(quoted("amount"), "\"amount\"");
    assert_eq!(quoted(""), "\"\"");
    assert_eq!(quoted("a\"b"), "\"a\\\"b\"");
    assert_eq!(quoted("a\\b"), "\"a\\\\b\"");
    assert_eq!(quoted("значение"), "\"значение\"");
    assert_eq!(quoted("a\nb\r\tc\0"), "\"a\\nb\\r\\tc\\0\"");
    let literal: syn::LitStr = syn::parse_str(&quoted("a\nb\r\n\t\"c\"\\\0 1")).unwrap();
    assert_eq!(literal.value(), "a\nb\r\n\t\"c\"\\\0 1");
}

#[test]
fn primitive_wire_types_are_written_with_their_widths() {
    assert_eq!(quote_atom(PrimitiveTag::UInt(128)), "Uint(128)");
    assert_eq!(quote_atom(PrimitiveTag::Int(8)), "Int(8)");
    assert_eq!(quote_atom(PrimitiveTag::VarUInt(16)), "VarUint(core::num::NonZeroU8::new(16).unwrap())");
    assert_eq!(quote_atom(PrimitiveTag::VarInt(32)), "VarInt(core::num::NonZeroU8::new(32).unwrap())");
    assert_eq!(quote_atom(PrimitiveTag::FixedBytes(4)), "FixedBytes(4)");
    assert_eq!(quote_abi_type(&SchemaTypeNode::Bool), "everscale_types::abi::AbiType::Bool");
    assert_eq!(quote_abi_type(&SchemaTypeNode::Cell), "everscale_types::abi::AbiType::Cell");
    assert_eq!(quote_abi_type(&SchemaTypeNode::Address), "everscale_types::abi::AbiType::Address");
    assert_eq!(quote_abi_type(&SchemaTypeNode::Bytes), "everscale_types::abi::AbiType::Bytes");
    assert_eq!(quote_abi_type(&SchemaTypeNode::String), "everscale_types::abi::AbiType::String");
    assert_eq!(quote_abi_type(&SchemaTypeNode::Token), "everscale_types::abi::AbiType::Token");
    assert_eq!(quote_abi_type(&SchemaTypeNode::UInt(256)), "everscale_types::abi::AbiType::Uint(256)");
    assert_eq!(
        quote_abi_type(&SchemaTypeNode::FixedBytes(32)),
        "everscale_types::abi::AbiType::FixedBytes(32)"
    );
}

#[test]
fn composite_wire_types_are_written_around_what_they_hold() {
    assert_eq!(
        quote_abi_type(&SchemaTypeNode::Array(Box::new(SchemaTypeNode::Bool))),
        "everscale_types::abi::AbiType::Array(std::sync::Arc::new(everscale_types::abi::AbiType::Bool))"
    );
    assert_eq!(
        quote_abi_type(&SchemaTypeNode::FixedArray(Box::new(SchemaTypeNode::Int(16)), 3)),
        "everscale_types::abi::AbiType::FixedArray(std::sync::Arc::new(everscale_types::abi::AbiType::Int(16)), 3)"
    );
    assert_eq!(
        quote_abi_type(&SchemaTypeNode::Optional(Box::new(SchemaTypeNode::Ref(Box::new(
            SchemaTypeNode::Cell
        ))))),
        "everscale_types::abi::AbiType::Optional(std::sync::Arc::new(everscale_types::abi::AbiType::Ref(std::sync::Arc::new(everscale_types::abi::AbiType::Cell))))"
    );
    assert_eq!(
        quote_abi_type(&SchemaTypeNode::Mapping(
            PrimitiveTag::UInt(32),
            Box::new(SchemaTypeNode::Address)
        )),
        "everscale_types::abi::AbiType::Map(everscale_types::abi::PlainAbiType::Uint(32), std::sync::Arc::new(everscale_types::abi::AbiType::Address))"
    );
    assert_eq!(
        make_abi_type("flag", &SchemaTypeNode::Bool),
        "NamedAbiType::new(\"flag\", everscale_types::abi::AbiType::Bool)"
    );
    let tuple = "everscale_types::abi::AbiType::Tuple(std::sync::Arc::new([NamedAbiType::new(\"toAddress\", everscale_types::abi::AbiType::Address),NamedAbiType::new(\"amount\", everscale_types::abi::AbiType::Uint(128)),]))";
    assert_eq!(quote_tuple_type(&transfer_inputs()), tuple);
    assert_eq!(quote_abi_type(&SchemaTypeNode::Tuple(transfer_inputs())), tuple);
    assert_eq!(
        quote_tuple_type(&Vec::new()),
        "everscale_types::abi::AbiType::Tuple(std::sync::Arc::new([]))"
    );
}

#[test]
fn field_values_are_read_under_their_snake_names() {
    assert_eq!(
        quote_abi_value("toAddress"),
        "everscale_types::abi::IntoAbi::as_abi(&self.to_address)"
    );
    assert_eq!(quote_abi_value("amount"), "everscale_types::abi::IntoAbi::as_abi(&self.amount)");
}

#[test]
fn the_three_implementations_follow_field_order() {
    let writer = TraitImplGen::new();
    let with_type = writer.implement_with_abi_type("TransferFunctionInput", &transfer_inputs());
    assert_eq!(
        with_type,
        "impl WithAbiType for TransferFunctionInput { fn abi_type() -> AbiType { everscale_types::abi::AbiType::Tuple(std::sync::Arc::new([NamedAbiType::new(\"toAddress\", everscale_types::abi::AbiType::Address),NamedAbiType::new(\"amount\", everscale_types::abi::AbiType::Uint(128)),])) } }"
    );
    let values = "NamedAbiValue { name: { let arc: std::sync::Arc<str> = std::sync::Arc::from(\"toAddress\"); arc }, value: everscale_types::abi::IntoAbi::as_abi(&self.to_address), },NamedAbiValue { name: { let arc: std::sync::Arc<str> = std::sync::Arc::from(\"amount\"); arc }, value: everscale_types::abi::IntoAbi::as_abi(&self.amount), },";
    let into = writer.implement_into_abi("TransferFunctionInput", &transfer_inputs());
    assert_eq!(
        into,
        format!(
            "impl IntoAbi for TransferFunctionInput {{ fn as_abi(&self) -> AbiValue {{ AbiValue::Tuple(vec![{}]) }} fn into_abi(self) -> AbiValue where Self: Sized, {{ AbiValue::Tuple(vec![{}]) }} }}",
            values, values
        )
    );
    let from = writer.implement_from_abi("TransferFunctionInput", &transfer_inputs());
    assert_eq!(
        from,
        "impl FromAbi for TransferFunctionInput { fn from_abi(value: AbiValue) -> Result<Self> { match value { AbiValue::Tuple(properties) => { if properties.len() != 2 { return Err(anyhow::Error::from(everscale_types::abi::error::AbiError::ArraySizeMismatch { expected: 2, len: properties.len(), })); } let mut iterator = properties.into_iter(); Ok(TransferFunctionInput { to_address: everscale_types::abi::FromAbiIter::<TransferFunctionInput>::next_value(&mut iterator)?,amount: everscale_types::abi::FromAbiIter::<TransferFunctionInput>::next_value(&mut iterator)?, }) }, _ => Err(anyhow::Error::from(everscale_types::abi::error::AbiError::TypeMismatch { expected: std::boxed::Box::<str>::from(\"tuple\"), ty: value.display_type().to_string().into(), })), } } }"
    );
    assert_eq!(
        writer.implement_traits("TransferFunctionInput", &transfer_inputs()),
        format!("{} {} {}", with_type, into, from)
    );
    let empty = writer.implement_from_abi("Nothing", &Vec::new());
    assert!(empty.contains("Ok(Nothing {  })"));
    assert!(empty.contains("if properties.len() != 0 { return Err("));
    assert_eq!(
        arity_guard(12),
        "if properties.len() != 12 { return Err(anyhow::Error::from(everscale_types::abi::error::AbiError::ArraySizeMismatch { expected: 12, len: properties.len(), })); } "
    );
}

#[test]
fn records_and_accessors_are_written_as_source() {
    let schema = Schema {
        abi_version_major: 2,
        abi_version_minor: 3,
        headers: vec![HeaderKind::Time],
        functions: vec![SchemaFunction {
            name: "sendAll".to_string(),
            inputs: vec![
                part("toAddress", SchemaTypeNode::Address),
                part(
                    "extra",
                    SchemaTypeNode::Tuple(vec![part("memoText", SchemaTypeNode::String)]),
                ),
            ],
            outputs: vec![],
            input_selector: 1,
            output_selector: 2,
        }],
    };
    let assembly = assemble(&schema);
    let records = &assembly.records;
    let input = &records[assembly.functions[0].input_record];
    assert_eq!(
        generate_model(input.name.as_str(), &input.properties, records),
        Some(
            "#[derive(Clone, Debug)] pub struct SendAllFunctionInput { pub to_address: everscale_types::models::message::StdAddr,pub extra: Extra, }"
                .to_string()
        )
    );
    assert_eq!(
        generate_model(records[0].name.as_str(), &records[0].properties, records),
        Some("#[derive(Clone, Debug)] pub struct Extra { pub memo_text: String, }".to_string())
    );
    assert_eq!(generate_model("Cut", &input.properties, &Vec::new()), None);
    assert_eq!(
        generate_func_body(&schema.functions[0]),
        "pub fn send_all() -> &'static everscale_types::abi::Function { static ONCE: std::sync::OnceLock<everscale_types::abi::Function> = std::sync::OnceLock::new(); ONCE.get_or_init(|| { everscale_types::abi::FunctionBuilder::new(ABI_VERSION, \"sendAll\").with_headers(HEADERS).with_inputs(match everscale_types::abi::AbiType::Tuple(std::sync::Arc::new([NamedAbiType::new(\"toAddress\", everscale_types::abi::AbiType::Address),NamedAbiType::new(\"extra\", everscale_types::abi::AbiType::Tuple(std::sync::Arc::new([NamedAbiType::new(\"memoText\", everscale_types::abi::AbiType::String),]))),])) { everscale_types::abi::AbiType::Tuple(items) => items.to_vec(), _ => Vec::new() }).with_outputs(match everscale_types::abi::AbiType::Tuple(std::sync::Arc::new([])) { everscale_types::abi::AbiType::Tuple(items) => items.to_vec(), _ => Vec::new() }).build() }) }"
    );
}

#[test]
fn single_fields_are_written_from_their_generated_names() {
    assert_eq!(abi_value_of("to_address"), "everscale_types::abi::IntoAbi::as_abi(&self.to_address)");
    assert_eq!(
        into_field("toAddress", "to_address"),
        "NamedAbiValue { name: { let arc: std::sync::Arc<str> = std::sync::Arc::from(\"toAddress\"); arc }, value: everscale_types::abi::IntoAbi::as_abi(&self.to_address), },"
    );
    assert_eq!(
        from_field("Input", "to_address"),
        "to_address: everscale_types::abi::FromAbiIter::<Input>::next_value(&mut iterator)?,"
    );
    assert_eq!(model_field("to_address", "Vec<u8>"), "pub to_address: Vec<u8>,");
    let function = SchemaFunction {
        name: "getAll".to_string(),
        inputs: vec![],
        outputs: vec![],
        input_selector: 1,
        output_selector: 2,
    };
    assert_eq!(accessor("get_all", &function), generate_func_body(&function));
    assert!(accessor("fetch", &function).starts_with("pub fn fetch() -> &'static everscale_types::abi::Function {"));
    assert!(accessor("fetch", &function).contains("FunctionBuilder::new(ABI_VERSION, \"getAll\")"));
}

fn shop() -> Schema {
    let line = SchemaTypeNode::Tuple(vec![
        part("sku", SchemaTypeNode::String),
        part("count", SchemaTypeNode::VarUInt(16)),
    ]);
    Schema {
        abi_version_major: 2,
        abi_version_minor: 3,
        headers: vec![HeaderKind::Time, HeaderKind::PublicKey],
        functions: vec![
            SchemaFunction {
                name: "placeOrder".to_string(),
                inputs: vec![
                    part("buyer", SchemaTypeNode::Address),
                    part("lines", SchemaTypeNode::Array(Box::new(line))),
                    part(
                        "notes",
                        SchemaTypeNode::Mapping(
                            PrimitiveTag::UInt(32),
                            Box::new(SchemaTypeNode::Optional(Box::new(SchemaTypeNode::Bytes))),
                        ),
                    ),
                ],
                outputs: vec![part("orderId", SchemaTypeNode::UInt(64))],
                input_selector: 1,
                output_selector: 2,
            },
            SchemaFunction {
                name: "broken".to_string(),
                inputs: vec![part(
                    "bad",
                    SchemaTypeNode::Mapping(PrimitiveTag::String, Box::new(SchemaTypeNode::Bool)),
                )],
                outputs: vec![],
                input_selector: 3,
                output_selector: 4,
            },
            SchemaFunction {
                name: "cancel".to_string(),
                inputs: vec![part("orderId", SchemaTypeNode::UInt(64))],
                outputs: vec![],
                input_selector: 5,
                output_selector: 6,
            },
        ],
    }
}

#[test]
fn the_module_holds_what_compiled_and_parses() {
    let schema = shop();
    let assembly = assemble(&schema);
    assert_eq!(assembly.failures.len(), 1);
    assert_eq!(assembly.failures[0].subject, "BrokenFunctionInput.bad");
    let positions: Vec<usize> = assembly.functions.iter().map(|f| f.position).collect();
    assert_eq!(positions, vec![0, 2]);

    let origins = record_origins(&assembly.records).unwrap();
    assert_eq!(origins.len(), assembly.records.len());
    let text = generate_module("shop", &schema, &assembly, &origins).unwrap();

    assert!(text.starts_with("pub mod shop { use anyhow::Result; "));
    assert!(text.ends_with("} }"));
    assert!(text.contains(
        "const HEADERS: [everscale_types::abi::AbiHeaderType; 2] = [everscale_types::abi::AbiHeaderType::Time,everscale_types::abi::AbiHeaderType::PublicKey,];"
    ));
    assert!(text.contains(
        "const ABI_VERSION: everscale_types::abi::AbiVersion = <everscale_types::abi::AbiVersion>::new(2, 3);"
    ));
    assert!(text.contains("pub fn place_order() -> &'static everscale_types::abi::Function"));
    assert!(text.contains("pub fn cancel() -> &'static everscale_types::abi::Function"));
    assert!(!text.contains("pub fn broken()"));
    assert!(!text.contains("BrokenFunctionInput"));
    let writer = TraitImplGen::new();
    for (record, fields) in assembly.records.iter().zip(origins.iter()) {
        let model = generate_model(&record.name, &record.properties, &assembly.records).unwrap();
        assert!(text.contains(&model));
        assert!(text.contains(&writer.implement_traits(&record.name, fields)));
    }
    let models_at = text.find("pub struct PlaceOrderFunctionInput ").unwrap();
    let impls_at = text.find("impl WithAbiType for ").unwrap();
    let accessors_at = text.find("pub mod functions").unwrap();
    assert!(models_at < impls_at && impls_at < accessors_at);

    let parsed: syn::ItemMod = syn::parse_str(&text).expect("the module is one item");
    let (_, items) = parsed.content.unwrap();
    assert_eq!(items.len(), 3 + 4 * assembly.records.len() + 1);

    assert_eq!(generate_module("shop", &schema, &assembly, &Vec::new()), None);
    assert_eq!(header_name(HeaderKind::Expire), "everscale_types::abi::AbiHeaderType::Expire");
}

#[test]
fn an_empty_schema_gives_an_empty_module() {
    let schema = Schema {
        abi_version_major: 1,
        abi_version_minor: 0,
        headers: vec![],
        functions: vec![],
    };
    let assembly = assemble(&schema);
    let origins = record_origins(&assembly.records).unwrap();
    assert_eq!(
        generate_module("none", &schema, &assembly, &origins),
        Some(
            "pub mod none { use anyhow::Result; use everscale_types::abi::{NamedAbiType, AbiType, WithAbiType, IntoAbi, IntoPlainAbi, FromAbiIter, FromAbi, AbiValue, NamedAbiValue}; use num_bigint::{BigInt, BigUint}; pub mod functions { use super::*; const HEADERS: [everscale_types::abi::AbiHeaderType; 0] = []; const ABI_VERSION: everscale_types::abi::AbiVersion = <everscale_types::abi::AbiVersion>::new(1, 0); } }"
                .to_string()
        )
    );
}
