use wasm_bridge::decode::{decode_document, json_to_wasm_value, DecodeError};
use wasm_bridge::document::{Document, Number, Shape};
use wasm_bridge::encode::wasm_value_to_json;
use wasm_bridge::typed::{DeclaredType, TypeTag, TypedValue};

fn number(n: u64) -> Document {
    Document::Number(Number::PosInt(n))
}

fn negative(n: i64) -> Document {
    Document::Number(Number::NegInt(n))
}

fn text(s: &str) -> Document {
    Document::String(s.to_string())
}

fn person() -> DeclaredType {
    DeclaredType::Record(vec![
        ("name".to_string(), DeclaredType::String),
        ("age".to_string(), DeclaredType::U32),
    ])
}

#[test]
fn test_json_to_wasm_value_bool() {
    let json_val = Document::Bool(true);
    let result = json_to_wasm_value(json_val, &DeclaredType::Bool);
    assert!(result.is_ok());
    assert!(matches!(result.unwrap(), TypedValue::Bool(true)));
}

#[test]
fn test_json_to_wasm_value_number_i32() {
    let json_val = number(42);
    let result = json_to_wasm_value(json_val, &DeclaredType::S32);
    assert!(result.is_ok());
    assert!(matches!(result.unwrap(), TypedValue::S32(42)));
}

#[test]
fn test_json_to_wasm_value_number_f64() {
    let json_val = Document::Number(Number::Float(3.14f64.to_bits()));
    let result = json_to_wasm_value(json_val, &DeclaredType::Float64);
    assert!(result.is_ok());
    if let TypedValue::Float64(bits) = result.unwrap() {
        let f = f64::from_bits(bits);
        assert!((f - 3.14).abs() < 0.01);
    } else {
        panic!("Expected Float64");
    }
}

#[test]
fn test_json_to_wasm_value_string() {
    let json_val = text("test");
    let result = json_to_wasm_value(json_val, &DeclaredType::String);
    assert!(result.is_ok());
    if let TypedValue::String(s) = result.unwrap() {
        assert_eq!(s, "test");
    } else {
        panic!("Expected String");
    }
}

#[test]
fn test_json_to_wasm_value_array_unsupported() {
    let json_val = Document::Array(vec![]);
    let result = json_to_wasm_value(json_val, &DeclaredType::S32);
    assert!(result.is_err());
}

#[test]
fn test_json_to_wasm_value_object_unsupported() {
    let json_val = Document::Object(vec![]);
    let result = json_to_wasm_value(json_val, &DeclaredType::S32);
    assert!(result.is_err());
}

#[test]
fn test_wasm_value_to_json_bool() {
    let wasm_val = TypedValue::Bool(true);
    let result = wasm_value_to_json(&wasm_val);
    assert_eq!(result, Document::Bool(true));
}

#[test]
fn test_wasm_value_to_json_s32() {
    let wasm_val = TypedValue::S32(42);
    let result = wasm_value_to_json(&wasm_val);
    assert_eq!(result, number(42));
}

#[test]
fn test_wasm_value_to_json_string() {
    let wasm_val = TypedValue::String("test".to_string());
    let result = wasm_value_to_json(&wasm_val);
    assert_eq!(result, text("test"));
}

#[test]
fn u8_takes_255_and_refuses_256() {
    assert_eq!(json_to_wasm_value(number(255), &DeclaredType::U8), Ok(TypedValue::U8(255)));
    assert_eq!(
        json_to_wasm_value(number(256), &DeclaredType::U8),
        Err(DecodeError::RangeOverflow { value: Number::PosInt(256), target_width: 8 })
    );
}

#[test]
fn u8_refuses_minus_one_as_overflow() {
    assert_eq!(
        json_to_wasm_value(negative(-1), &DeclaredType::U8),
        Err(DecodeError::RangeOverflow { value: Number::NegInt(-1), target_width: 8 })
    );
}

#[test]
fn signed_widths_have_exact_bounds() {
    assert_eq!(json_to_wasm_value(negative(-128), &DeclaredType::S8), Ok(TypedValue::S8(-128)));
    assert_eq!(json_to_wasm_value(number(127), &DeclaredType::S8), Ok(TypedValue::S8(127)));
    assert_eq!(
        json_to_wasm_value(number(128), &DeclaredType::S8),
        Err(DecodeError::RangeOverflow { value: Number::PosInt(128), target_width: 8 })
    );
    assert_eq!(
        json_to_wasm_value(negative(-129), &DeclaredType::S8),
        Err(DecodeError::RangeOverflow { value: Number::NegInt(-129), target_width: 8 })
    );
    assert_eq!(
        json_to_wasm_value(negative(-32768), &DeclaredType::S16),
        Ok(TypedValue::S16(-32768))
    );
    assert_eq!(
        json_to_wasm_value(number(32768), &DeclaredType::S16),
        Err(DecodeError::RangeOverflow { value: Number::PosInt(32768), target_width: 16 })
    );
    assert_eq!(
        json_to_wasm_value(number(2147483647), &DeclaredType::S32),
        Ok(TypedValue::S32(i32::MAX))
    );
    assert_eq!(
        json_to_wasm_value(number(2147483648), &DeclaredType::S32),
        Err(DecodeError::RangeOverflow { value: Number::PosInt(2147483648), target_width: 32 })
    );
    assert_eq!(
        json_to_wasm_value(negative(i64::MIN), &DeclaredType::S64),
        Ok(TypedValue::S64(i64::MIN))
    );
    assert_eq!(
        json_to_wasm_value(number(1u64 << 63), &DeclaredType::S64),
        Err(DecodeError::RangeOverflow { value: Number::PosInt(1u64 << 63), target_width: 64 })
    );
}

#[test]
fn unsigned_widths_have_exact_bounds() {
    assert_eq!(json_to_wasm_value(number(65535), &DeclaredType::U16), Ok(TypedValue::U16(65535)));
    assert_eq!(
        json_to_wasm_value(number(65536), &DeclaredType::U16),
        Err(DecodeError::RangeOverflow { value: Number::PosInt(65536), target_width: 16 })
    );
    assert_eq!(
        json_to_wasm_value(number(4294967295), &DeclaredType::U32),
        Ok(TypedValue::U32(u32::MAX))
    );
    assert_eq!(
        json_to_wasm_value(number(4294967296), &DeclaredType::U32),
        Err(DecodeError::RangeOverflow { value: Number::PosInt(4294967296), target_width: 32 })
    );
    assert_eq!(
        json_to_wasm_value(number(u64::MAX), &DeclaredType::U64),
        Ok(TypedValue::U64(u64::MAX))
    );
    assert_eq!(
        json_to_wasm_value(negative(-5), &DeclaredType::U64),
        Err(DecodeError::RangeOverflow { value: Number::NegInt(-5), target_width: 64 })
    );
}

#[test]
fn a_float_is_no_integer() {
    let half = Number::Float(1.5f64.to_bits());
    assert_eq!(
        json_to_wasm_value(Document::Number(half), &DeclaredType::S32),
        Err(DecodeError::RangeOverflow { value: half, target_width: 32 })
    );
}

#[test]
fn an_integer_becomes_the_nearest_double() {
    assert_eq!(
        json_to_wasm_value(number(1), &DeclaredType::Float64),
        Ok(TypedValue::Float64(1.0f64.to_bits()))
    );
    assert_eq!(
        json_to_wasm_value(negative(-3), &DeclaredType::Float64),
        Ok(TypedValue::Float64((-3.0f64).to_bits()))
    );
    assert_eq!(
        json_to_wasm_value(number(u64::MAX), &DeclaredType::Float32),
        Ok(TypedValue::Float32((u64::MAX as f64).to_bits()))
    );
}

#[test]
fn char_takes_exactly_one_character() {
    assert_eq!(json_to_wasm_value(text("a"), &DeclaredType::Char), Ok(TypedValue::Char('a')));
    assert_eq!(
        json_to_wasm_value(text("ab"), &DeclaredType::Char),
        Err(DecodeError::TypeMismatch { expected: TypeTag::Char, got: Shape::String })
    );
    assert_eq!(
        json_to_wasm_value(text(""), &DeclaredType::Char),
        Err(DecodeError::TypeMismatch { expected: TypeTag::Char, got: Shape::String })
    );
}

#[test]
fn char_counts_code_points_not_bytes() {
    assert_eq!(json_to_wasm_value(text("é"), &DeclaredType::Char), Ok(TypedValue::Char('é')));
    assert_eq!(json_to_wasm_value(text("模"), &DeclaredType::Char), Ok(TypedValue::Char('模')));
}

#[test]
fn record_reports_the_missing_field() {
    let input = Document::Object(vec![("name".to_string(), text("Al"))]);
    assert_eq!(
        json_to_wasm_value(input, &person()),
        Err(DecodeError::MissingField { name: "age".to_string() })
    );
}

#[test]
fn record_ignores_extra_keys() {
    let input = Document::Object(vec![
        ("name".to_string(), text("Al")),
        ("age".to_string(), number(30)),
        ("extra".to_string(), Document::Bool(true)),
    ]);
    assert_eq!(
        json_to_wasm_value(input, &person()),
        Ok(TypedValue::Record(vec![
            ("name".to_string(), TypedValue::String("Al".to_string())),
            ("age".to_string(), TypedValue::U32(30)),
        ]))
    );
}

#[test]
fn record_finds_fields_by_name_not_position() {
    let input = Document::Object(vec![
        ("age".to_string(), number(30)),
        ("name".to_string(), text("Al")),
    ]);
    assert_eq!(
        json_to_wasm_value(input, &person()),
        Ok(TypedValue::Record(vec![
            ("name".to_string(), TypedValue::String("Al".to_string())),
            ("age".to_string(), TypedValue::U32(30)),
        ]))
    );
}

#[test]
fn record_names_the_field_whose_value_fails() {
    let input = Document::Object(vec![
        ("name".to_string(), text("Al")),
        ("age".to_string(), text("thirty")),
    ]);
    assert_eq!(
        json_to_wasm_value(input, &person()),
        Err(DecodeError::InField {
            name: "age".to_string(),
            cause: Box::new(DecodeError::TypeMismatch {
                expected: TypeTag::U32,
                got: Shape::String
            }),
        })
    );
}

#[test]
fn list_keeps_order_and_stops_at_the_first_failure() {
    let ty = DeclaredType::List(Box::new(DeclaredType::U8));
    assert_eq!(
        json_to_wasm_value(Document::Array(vec![number(3), number(1), number(2)]), &ty),
        Ok(TypedValue::List(vec![TypedValue::U8(3), TypedValue::U8(1), TypedValue::U8(2)]))
    );
    assert_eq!(
        json_to_wasm_value(Document::Array(vec![]), &ty),
        Ok(TypedValue::List(vec![]))
    );
    assert_eq!(
        json_to_wasm_value(Document::Array(vec![number(3), number(300), text("x")]), &ty),
        Err(DecodeError::RangeOverflow { value: Number::PosInt(300), target_width: 8 })
    );
}

#[test]
fn every_other_pairing_is_a_mismatch() {
    assert_eq!(
        json_to_wasm_value(Document::Null, &DeclaredType::Bool),
        Err(DecodeError::TypeMismatch { expected: TypeTag::Bool, got: Shape::Null })
    );
    assert_eq!(
        json_to_wasm_value(Document::Bool(true), &DeclaredType::U8),
        Err(DecodeError::TypeMismatch { expected: TypeTag::U8, got: Shape::Bool })
    );
    assert_eq!(
        json_to_wasm_value(number(1), &DeclaredType::String),
        Err(DecodeError::TypeMismatch { expected: TypeTag::String, got: Shape::Number })
    );
    assert_eq!(
        json_to_wasm_value(Document::Object(vec![]), &DeclaredType::List(Box::new(DeclaredType::Bool))),
        Err(DecodeError::TypeMismatch { expected: TypeTag::List, got: Shape::Object })
    );
    assert_eq!(
        json_to_wasm_value(Document::Array(vec![]), &person()),
        Err(DecodeError::TypeMismatch { expected: TypeTag::Record, got: Shape::Array })
    );
    assert_eq!(
        json_to_wasm_value(number(1), &DeclaredType::Other),
        Err(DecodeError::TypeMismatch { expected: TypeTag::Other, got: Shape::Number })
    );
}

#[test]
fn result_values_encode_to_ok_err_or_placeholder() {
    let ok = TypedValue::Result(Ok(Some(Box::new(TypedValue::S32(7)))));
    assert_eq!(wasm_value_to_json(&ok), Document::Object(vec![("ok".to_string(), number(7))]));
    let err = TypedValue::Result(Err(Some(Box::new(TypedValue::String("no".to_string())))));
    assert_eq!(wasm_value_to_json(&err), Document::Object(vec![("err".to_string(), text("no"))]));
    assert_eq!(wasm_value_to_json(&TypedValue::Result(Err(None))), text("_"));
    assert_eq!(wasm_value_to_json(&TypedValue::Result(Ok(None))), text("_"));
}

#[test]
fn integers_encode_to_their_own_value() {
    assert_eq!(wasm_value_to_json(&TypedValue::S8(-5)), negative(-5));
    assert_eq!(wasm_value_to_json(&TypedValue::S16(-300)), negative(-300));
    assert_eq!(wasm_value_to_json(&TypedValue::S64(i64::MIN)), negative(i64::MIN));
    assert_eq!(wasm_value_to_json(&TypedValue::S64(9)), number(9));
    assert_eq!(wasm_value_to_json(&TypedValue::U8(200)), number(200));
    assert_eq!(wasm_value_to_json(&TypedValue::U16(60000)), number(60000));
    assert_eq!(wasm_value_to_json(&TypedValue::U32(u32::MAX)), number(4294967295));
    assert_eq!(wasm_value_to_json(&TypedValue::U64(u64::MAX)), number(u64::MAX));
}

#[test]
fn floats_that_are_not_finite_encode_to_zero() {
    assert_eq!(
        wasm_value_to_json(&TypedValue::Float64(2.5f64.to_bits())),
        Document::Number(Number::Float(2.5f64.to_bits()))
    );
    assert_eq!(wasm_value_to_json(&TypedValue::Float64(f64::NAN.to_bits())), number(0));
    assert_eq!(wasm_value_to_json(&TypedValue::Float64(f64::INFINITY.to_bits())), number(0));
    assert_eq!(wasm_value_to_json(&TypedValue::Float32(f64::NEG_INFINITY.to_bits())), number(0));
    assert_eq!(
        wasm_value_to_json(&TypedValue::Float32((0.5f32 as f64).to_bits())),
        Document::Number(Number::Float(0.5f64.to_bits()))
    );
}

#[test]
fn char_encodes_to_a_string_of_one_character() {
    assert_eq!(wasm_value_to_json(&TypedValue::Char('x')), text("x"));
    assert_eq!(wasm_value_to_json(&TypedValue::Char('模')), text("模"));
}

#[test]
fn records_encode_to_their_rendering() {
    let record = TypedValue::Record(vec![("a".to_string(), TypedValue::S32(1))]);
    assert_eq!(wasm_value_to_json(&record), text("Record([(\"a\", S32(1))])"));
    assert_eq!(wasm_value_to_json(&TypedValue::Other("Flags([])".to_string())), text("Flags([])"));
}

#[test]
fn decoding_an_encoding_gives_the_value_back() {
    let cases: Vec<(TypedValue, DeclaredType)> = vec![
        (TypedValue::Bool(false), DeclaredType::Bool),
        (TypedValue::S8(-128), DeclaredType::S8),
        (TypedValue::S16(12345), DeclaredType::S16),
        (TypedValue::S32(-7), DeclaredType::S32),
        (TypedValue::S64(i64::MAX), DeclaredType::S64),
        (TypedValue::U8(255), DeclaredType::U8),
        (TypedValue::U16(0), DeclaredType::U16),
        (TypedValue::U32(77), DeclaredType::U32),
        (TypedValue::U64(u64::MAX), DeclaredType::U64),
        (TypedValue::Float64((-0.0f64).to_bits()), DeclaredType::Float64),
        (TypedValue::Float64(1e300f64.to_bits()), DeclaredType::Float64),
        (TypedValue::Char('z'), DeclaredType::Char),
        (TypedValue::String("hello".to_string()), DeclaredType::String),
        (
            TypedValue::List(vec![
                TypedValue::List(vec![TypedValue::Char('a'), TypedValue::Char('b')]),
                TypedValue::List(vec![]),
            ]),
            DeclaredType::List(Box::new(DeclaredType::List(Box::new(DeclaredType::Char)))),
        ),
    ];
    for (value, ty) in cases {
        let document = wasm_value_to_json(&value);
        assert_eq!(decode_document(&document, &ty), Ok(value));
    }
}

#[test]
fn an_infinity_does_not_come_back() {
    let value = TypedValue::Float64(f64::INFINITY.to_bits());
    let document = wasm_value_to_json(&value);
    assert_eq!(
        decode_document(&document, &DeclaredType::Float64),
        Ok(TypedValue::Float64(0.0f64.to_bits()))
    );
}

#[test]
fn the_first_of_two_equal_keys_is_the_one_found() {
    let input = Document::Object(vec![
        ("name".to_string(), text("first")),
        ("name".to_string(), text("second")),
        ("age".to_string(), number(1)),
    ]);
    assert_eq!(
        json_to_wasm_value(input, &person()),
        Ok(TypedValue::Record(vec![
            ("name".to_string(), TypedValue::String("first".to_string())),
            ("age".to_string(), TypedValue::U32(1)),
        ]))
    );
}
