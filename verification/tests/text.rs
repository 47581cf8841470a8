use ruson::binary_subtype::BinarySubtype;
use ruson::index::{IndexModel, IndexOptions};
use ruson::object::{
    Binary, Decimal128, JavaScriptCode, JavaScriptCodeWithScope, MaxKey, MinKey, ObjectId, Regex,
    Symbol, Timestamp, Undefined,
};
use ruson::text::{decimal_string, hex_string, join3, join5};
use ruson::value::Document;

#[test]
fn hexadecimal_has_two_lower_case_digits_per_byte() {
    assert_eq!(hex_string(&[]), "");
    assert_eq!(hex_string(&[0]), "00");
    assert_eq!(hex_string(&[0x0a, 0xff, 0x10, 0x9c]), "0aff109c");
    assert_eq!(hex_string(&[0xde, 0xad, 0xbe, 0xef]), "deadbeef");
}

#[test]
fn decimal_has_no_leading_zeros() {
    assert_eq!(decimal_string(0), "0");
    assert_eq!(decimal_string(7), "7");
    assert_eq!(decimal_string(10), "10");
    assert_eq!(decimal_string(4_294_967_295), "4294967295");
    assert_eq!(decimal_string(u64::MAX), "18446744073709551615");
}

#[test]
fn joins() {
    assert_eq!(join3("a", "", "c"), "ac");
    assert_eq!(join5("1", "2", "3", "4", "5"), "12345");
}

#[test]
fn unit_wrappers() {
    assert_eq!(Undefined.__repr__(), "ruson.types.Undefined");
    assert_eq!(Undefined.__str__(), "Undefined");
    assert_eq!(MaxKey.__repr__(), "ruson.types.MaxKey");
    assert_eq!(MaxKey.__str__(), "MaxKey");
    assert_eq!(MinKey.__repr__(), "ruson.types.MinKey");
    assert_eq!(MinKey.__str__(), "MinKey");
}

#[test]
fn text_wrappers() {
    let symbol = Symbol { symbol: "s1".to_string() };
    assert_eq!(symbol.__repr__(), "ruson.types.Symbol(symbol=\"s1\")");
    assert_eq!(symbol.__str__(), "s1");
    let code = JavaScriptCode { code: "f()".to_string() };
    assert_eq!(code.__repr__(), "ruson.types.JavaScriptCode(code=\"f()\")");
    assert_eq!(code.__str__(), "f()");
    let scoped = JavaScriptCodeWithScope { code: "g()".to_string(), scope: Document::empty() };
    assert_eq!(
        scoped.__repr__("<Document>"),
        "ruson.types.JavaScriptCodeWithScope(code=\"g()\", scope=<Document>)"
    );
    assert_eq!(scoped.__str__(), "g()");
    let regex = Regex { pattern: "^a".to_string(), options: "im".to_string() };
    assert_eq!(regex.__repr__(), "ruson.types.Regex(regex=\"^a\", options=\"im\")");
    assert_eq!(regex.__str__(), "^a");
}

#[test]
fn timestamp_shows_its_seconds() {
    let timestamp = Timestamp { timestamp: 1_700_000_000, increment: 5 };
    assert_eq!(timestamp.__repr__(), "ruson.types.Timestamp(timestamp=1700000000)");
    assert_eq!(timestamp.__str__(), "1700000000");
    assert_eq!(Timestamp { timestamp: 0, increment: 0 }.__str__(), "0");
}

#[test]
fn binary_shows_subtype_and_bytes() {
    let binary = Binary { subtype: BinarySubtype { id: 4, value: 0 }, bytes: vec![0xca, 0xfe, 0x01] };
    assert_eq!(binary.__repr__(), "ruson.types.Binary(subtype=Uuid, bytes=\"cafe01\")");
    assert_eq!(binary.__str__(), "cafe01");
    assert_eq!(binary.get_value(), "cafe01");
    assert_eq!(binary.get_bytes(), vec![0xca, 0xfe, 0x01]);
    let user = Binary { subtype: BinarySubtype { id: 0x80, value: 200 }, bytes: vec![] };
    assert_eq!(user.__repr__(), "ruson.types.Binary(subtype=UserDefined(200), bytes=\"\")");
    assert_eq!(user.__str__(), "");
}

#[test]
fn object_id_and_decimal_show_their_bytes() {
    let id = ObjectId { id: [0x65, 0x4a, 0, 1, 2, 3, 4, 5, 6, 7, 0xab, 0xcd] };
    assert_eq!(id.__str__(), "654a0001020304050607abcd");
    assert_eq!(id.get_value(), "654a0001020304050607abcd");
    assert_eq!(id.__repr__(), "ruson.types.ObjectId(\"654a0001020304050607abcd\")");
    let decimal = Decimal128 { bytes: [0x30, 0x40, 0, 0, 0, 0, 0, 0, 0, 0, 0, 0, 0, 0, 0, 0x01] };
    assert_eq!(decimal.__str__(), "30400000000000000000000000000001");
    assert_eq!(decimal.get_value(), "30400000000000000000000000000001");
    assert_eq!(
        decimal.__repr__(),
        "ruson.types.Decimal128(\"30400000000000000000000000000001\")"
    );
    assert_eq!(decimal.get_bytes(), decimal.bytes);
}

#[test]
fn index_types_show_a_fixed_text() {
    let options = IndexOptions::new(
        None, None, None, None, None, None, None, None, None, None, None, None, None,
    );
    assert_eq!(options.__repr__(), "ruson.types.IndexOptions(...)");
    let model = IndexModel::new(vec![], None).unwrap();
    assert_eq!(model.__repr__(), "ruson.types.IndexModel(...)");
}
