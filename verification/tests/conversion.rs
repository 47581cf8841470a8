use ruson::binary_subtype::{BinarySubtype, BinarySubtypeKind};
use ruson::convert::{decode, encode, encode_values};
use ruson::error::DriverError;
use ruson::object::{
    Binary, Decimal128, DynamicObject, JavaScriptCode, JavaScriptCodeWithScope, MaxKey, MinKey,
    NativeDateTime, ObjectId, Regex, Symbol, Timestamp, Undefined,
};
use ruson::value::{Document, Value};

fn sample_document() -> Document {
    let mut document = Document::empty();
    document.insert("name".to_string(), Value::String("ada".to_string()));
    document.insert("age".to_string(), Value::Int32(36));
    document
}

fn round_trip(value: Value) {
    let object = encode(&value).unwrap();
    assert_eq!(decode(&object), Ok(value));
}

#[test]
fn double_round_trips_bit_for_bit() {
    round_trip(Value::Double(1.5f64.to_bits()));
    round_trip(Value::Double(f64::NAN.to_bits()));
    round_trip(Value::Double((-0.0f64).to_bits()));
    assert_eq!(
        encode(&Value::Double(2.25f64.to_bits())),
        Ok(DynamicObject::Float(2.25f64.to_bits()))
    );
}

#[test]
fn scalars_round_trip() {
    round_trip(Value::String("hello".to_string()));
    round_trip(Value::Boolean(true));
    round_trip(Value::Boolean(false));
    round_trip(Value::Null);
    round_trip(Value::Int64(i64::MIN));
    round_trip(Value::Int64(i64::MAX));
    round_trip(Value::DateTime(1_700_000_000_123));
    round_trip(Value::DateTime(-1));
    round_trip(Value::Undefined);
    round_trip(Value::MaxKey);
    round_trip(Value::MinKey);
}

#[test]
fn wrappers_round_trip_with_raw_fields() {
    round_trip(Value::Regex { pattern: "^a.*z$".to_string(), options: "i".to_string() });
    round_trip(Value::JsCode("function() {}".to_string()));
    round_trip(Value::JsCodeWithScope { code: "x + 1".to_string(), scope: sample_document() });
    round_trip(Value::Timestamp { seconds: 1_700_000_000, ordinal: 7 });
    round_trip(Value::ObjectId([1, 2, 3, 4, 5, 6, 7, 8, 9, 10, 11, 12]));
    round_trip(Value::Decimal128([0xff; 16]));
    round_trip(Value::Symbol("sym".to_string()));
    round_trip(Value::Binary { subtype: BinarySubtypeKind::Uuid, bytes: vec![0, 1, 0xfe, 0xff] });
    round_trip(Value::Binary { subtype: BinarySubtypeKind::Generic, bytes: vec![] });
}

#[test]
fn composites_round_trip() {
    round_trip(Value::Array(vec![]));
    round_trip(Value::Array(vec![
        Value::Int64(1),
        Value::String("two".to_string()),
        Value::Array(vec![Value::Null, Value::Boolean(true)]),
        Value::Document(sample_document()),
    ]));
    round_trip(Value::Document(sample_document()));
    round_trip(Value::Document(Document::empty()));
}

#[test]
fn encode_maps_each_kind_to_its_form() {
    assert_eq!(encode(&Value::String("t".to_string())), Ok(DynamicObject::Text("t".to_string())));
    assert_eq!(encode(&Value::Boolean(true)), Ok(DynamicObject::Bool(true)));
    assert_eq!(encode(&Value::Null), Ok(DynamicObject::Nothing));
    assert_eq!(encode(&Value::Int32(-5)), Ok(DynamicObject::Int(-5)));
    assert_eq!(encode(&Value::Int64(5)), Ok(DynamicObject::Int(5)));
    assert_eq!(
        encode(&Value::DateTime(86_400_000)),
        Ok(DynamicObject::DateTime(NativeDateTime { millis: 86_400_000 }))
    );
    assert_eq!(
        encode(&Value::Timestamp { seconds: 3, ordinal: 4 }),
        Ok(DynamicObject::Timestamp(Timestamp { timestamp: 3, increment: 4 }))
    );
    assert_eq!(
        encode(&Value::Regex { pattern: "p".to_string(), options: "o".to_string() }),
        Ok(DynamicObject::Regex(Regex { pattern: "p".to_string(), options: "o".to_string() }))
    );
    assert_eq!(
        encode(&Value::JsCode("c".to_string())),
        Ok(DynamicObject::JavaScriptCode(JavaScriptCode { code: "c".to_string() }))
    );
    assert_eq!(
        encode(&Value::JsCodeWithScope { code: "c".to_string(), scope: sample_document() }),
        Ok(DynamicObject::JavaScriptCodeWithScope(JavaScriptCodeWithScope {
            code: "c".to_string(),
            scope: sample_document(),
        }))
    );
    assert_eq!(
        encode(&Value::ObjectId([9; 12])),
        Ok(DynamicObject::ObjectId(ObjectId { id: [9; 12] }))
    );
    assert_eq!(
        encode(&Value::Decimal128([7; 16])),
        Ok(DynamicObject::Decimal128(Decimal128 { bytes: [7; 16] }))
    );
    assert_eq!(
        encode(&Value::Symbol("s".to_string())),
        Ok(DynamicObject::Symbol(Symbol { symbol: "s".to_string() }))
    );
    assert_eq!(encode(&Value::Undefined), Ok(DynamicObject::Undefined(Undefined)));
    assert_eq!(encode(&Value::MaxKey), Ok(DynamicObject::MaxKey(MaxKey)));
    assert_eq!(encode(&Value::MinKey), Ok(DynamicObject::MinKey(MinKey)));
    assert_eq!(
        encode(&Value::Document(sample_document())),
        Ok(DynamicObject::Document(sample_document()))
    );
    assert_eq!(
        encode(&Value::Array(vec![Value::Int32(1), Value::Null])),
        Ok(DynamicObject::List(vec![DynamicObject::Int(1), DynamicObject::Nothing]))
    );
}

#[test]
fn encode_keeps_binary_subtype_and_bytes() {
    assert_eq!(
        encode(&Value::Binary { subtype: BinarySubtypeKind::Md5, bytes: vec![1, 2, 3] }),
        Ok(DynamicObject::Binary(Binary {
            subtype: BinarySubtype { id: 5, value: 0 },
            bytes: vec![1, 2, 3],
        }))
    );
    assert_eq!(
        encode(&Value::Binary { subtype: BinarySubtypeKind::Reserved(0x7f), bytes: vec![] }),
        Ok(DynamicObject::Binary(Binary {
            subtype: BinarySubtype { id: 9, value: 0x7f },
            bytes: vec![],
        }))
    );
    assert_eq!(
        encode(&Value::Binary { subtype: BinarySubtypeKind::UserDefined(0xfe), bytes: vec![0] }),
        Ok(DynamicObject::Binary(Binary {
            subtype: BinarySubtype { id: 0x80, value: 0xfe },
            bytes: vec![0],
        }))
    );
}

#[test]
fn int32_comes_back_as_int64() {
    let object = encode(&Value::Int32(7)).unwrap();
    assert_eq!(decode(&object), Ok(Value::Int64(7)));
    let object = encode(&Value::Array(vec![Value::Int32(-1), Value::Int64(2)])).unwrap();
    assert_eq!(decode(&object), Ok(Value::Array(vec![Value::Int64(-1), Value::Int64(2)])));
}

#[test]
fn int32_inside_a_document_is_kept() {
    let value = Value::Document(sample_document());
    let object = encode(&value).unwrap();
    assert_eq!(decode(&object), Ok(value));
}

#[test]
fn plain_host_integer_decodes_to_int64() {
    assert_eq!(decode(&DynamicObject::Int(12)), Ok(Value::Int64(12)));
    assert_eq!(decode(&DynamicObject::Int(i64::MIN)), Ok(Value::Int64(i64::MIN)));
}

#[test]
fn absence_decodes_to_null() {
    assert_eq!(decode(&DynamicObject::Nothing), Ok(Value::Null));
}

#[test]
fn db_pointer_is_refused_by_encode() {
    assert_eq!(encode(&Value::DbPointer), Err(DriverError::UnsupportedValueKind));
    assert_eq!(
        encode(&Value::Array(vec![Value::Int64(1), Value::DbPointer])),
        Err(DriverError::UnsupportedValueKind)
    );
    let mut document = Document::empty();
    document.insert("p".to_string(), Value::DbPointer);
    assert_eq!(encode(&Value::Document(document)), Err(DriverError::UnsupportedValueKind));
}

#[test]
fn db_pointer_is_refused_by_decode() {
    let mut inner = Document::empty();
    inner.insert("deep".to_string(), Value::Array(vec![Value::DbPointer]));
    let mut document = Document::empty();
    document.insert("inner".to_string(), Value::Document(inner));
    assert_eq!(
        decode(&DynamicObject::Document(document)),
        Err(DriverError::UnsupportedValueKind)
    );
    let mut scope = Document::empty();
    scope.insert("p".to_string(), Value::DbPointer);
    assert_eq!(
        decode(&DynamicObject::JavaScriptCodeWithScope(JavaScriptCodeWithScope {
            code: "c".to_string(),
            scope,
        })),
        Err(DriverError::UnsupportedValueKind)
    );
}

#[test]
fn unrecognized_type_is_refused_by_name() {
    let object = DynamicObject::Unrecognized { runtime_type: "Fraction".to_string() };
    assert_eq!(decode(&object), Err(DriverError::UnsupportedRuntimeType("Fraction".to_string())));
    assert_eq!(
        decode(&object).unwrap_err().message(),
        "Type Fraction is not convertible to BSON"
    );
}

#[test]
fn list_reports_the_first_failure_in_order() {
    let list = DynamicObject::List(vec![
        DynamicObject::Int(1),
        DynamicObject::Unrecognized { runtime_type: "First".to_string() },
        DynamicObject::Unrecognized { runtime_type: "Second".to_string() },
    ]);
    assert_eq!(decode(&list), Err(DriverError::UnsupportedRuntimeType("First".to_string())));
}

#[test]
fn decode_reads_binary_subtype_from_identifier_and_value() {
    let object = DynamicObject::Binary(Binary {
        subtype: BinarySubtype { id: 8, value: 0x21 },
        bytes: vec![5],
    });
    assert_eq!(
        decode(&object),
        Ok(Value::Binary { subtype: BinarySubtypeKind::Reserved(0x21), bytes: vec![5] })
    );
}

#[test]
fn is_supported_looks_at_every_depth() {
    assert!(Value::Int64(1).is_supported());
    assert!(!Value::DbPointer.is_supported());
    assert!(!Value::Array(vec![Value::Array(vec![Value::DbPointer])]).is_supported());
    let mut document = Document::empty();
    document.insert("a".to_string(), Value::Int64(1));
    assert!(document.is_supported());
    document.insert("b".to_string(), Value::DbPointer);
    assert!(!document.is_supported());
    assert!(!Value::JsCodeWithScope { code: "c".to_string(), scope: document }.is_supported());
}

#[test]
fn clone_is_a_deep_copy() {
    let value = Value::Array(vec![Value::Document(sample_document()), Value::Int32(3)]);
    let copy = value.clone();
    assert_eq!(copy, value);
    let object = encode(&Value::Array(vec![Value::String("x".to_string())])).unwrap();
    assert_eq!(object.clone(), object);
}

#[test]
fn error_messages_name_what_failed() {
    assert_eq!(DriverError::InvalidKeyType.message(), "Document keys must be strings");
    assert_eq!(DriverError::KeyNotFound("k".to_string()).message(), "Key not found: 'k'");
    assert_eq!(DriverError::UnsupportedValueKind.message(), "'DBPointer' type is not supported!");
    assert_eq!(
        DriverError::UnsupportedRuntimeType("set".to_string()).message(),
        "Type set is not convertible to BSON"
    );
    assert_eq!(DriverError::NoCurrentRecord.message(), "The cursor has no current record");
    assert_eq!(
        DriverError::RemoteOperationFailed("connection reset".to_string()).message(),
        "connection reset"
    );
}

#[test]
fn lists_of_values_are_encoded_in_order() {
    assert_eq!(encode_values(&vec![]), Ok(vec![]));
    assert_eq!(
        encode_values(&vec![Value::Int32(1), Value::Null, Value::String("s".to_string())]),
        Ok(vec![DynamicObject::Int(1), DynamicObject::Nothing, DynamicObject::Text("s".to_string())])
    );
    assert_eq!(
        encode_values(&vec![Value::Int32(1), Value::DbPointer, Value::Null]),
        Err(DriverError::UnsupportedValueKind)
    );
}

#[test]
fn what_was_read_from_the_host_can_be_shown_again() {
    let objects = vec![
        DynamicObject::Nothing,
        DynamicObject::Float(0.5f64.to_bits()),
        DynamicObject::Text("t".to_string()),
        DynamicObject::Bool(false),
        DynamicObject::Int(-3),
        DynamicObject::DateTime(NativeDateTime { millis: 5 }),
        DynamicObject::List(vec![DynamicObject::Int(1), DynamicObject::List(vec![])]),
        DynamicObject::Timestamp(Timestamp { timestamp: 1, increment: 2 }),
        DynamicObject::Undefined(Undefined),
        DynamicObject::MaxKey(MaxKey),
        DynamicObject::MinKey(MinKey),
    ];
    for object in objects {
        let value = decode(&object).unwrap();
        assert!(value.is_supported());
        assert_eq!(encode(&value), Ok(object));
    }
}
