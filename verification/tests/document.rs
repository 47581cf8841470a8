use ruson::document::key_is_string;
use ruson::error::DriverError;
use ruson::object::DynamicObject;
use ruson::value::{Document, Value};

fn text(s: &str) -> DynamicObject {
    DynamicObject::Text(s.to_string())
}

fn abc() -> Document {
    let mut document = Document::new(None, None).unwrap();
    document.set(&text("a"), &DynamicObject::Int(1)).unwrap();
    document.set(&text("c"), &DynamicObject::Int(3)).unwrap();
    document.set(&text("b"), &DynamicObject::Int(2)).unwrap();
    document
}

fn drain(document: &Document) -> Vec<(String, DynamicObject)> {
    let mut iter = document.__iter__();
    let mut seen = Vec::new();
    while let Some(entry) = iter.__next__().unwrap() {
        seen.push(entry);
    }
    seen
}

#[test]
fn insertion_order_is_kept() {
    let document = abc();
    assert_eq!(document.keys(), vec!["a".to_string(), "c".to_string(), "b".to_string()]);
    assert_eq!(
        document.values(),
        Ok(vec![DynamicObject::Int(1), DynamicObject::Int(3), DynamicObject::Int(2)])
    );
    assert_eq!(
        drain(&document),
        vec![
            ("a".to_string(), DynamicObject::Int(1)),
            ("c".to_string(), DynamicObject::Int(3)),
            ("b".to_string(), DynamicObject::Int(2)),
        ]
    );
}

#[test]
fn overwriting_keeps_the_position() {
    let mut document = abc();
    document.set(&text("c"), &text("new")).unwrap();
    assert_eq!(document.len(), 3);
    assert_eq!(document.keys(), vec!["a".to_string(), "c".to_string(), "b".to_string()]);
    assert_eq!(document.get(&text("c")), Ok(Some(text("new"))));
    assert_eq!(
        drain(&document),
        vec![
            ("a".to_string(), DynamicObject::Int(1)),
            ("c".to_string(), text("new")),
            ("b".to_string(), DynamicObject::Int(2)),
        ]
    );
}

#[test]
fn non_text_keys_are_refused_before_any_change() {
    let mut document = abc();
    let before = document.copy();
    let key = DynamicObject::Int(1);
    assert_eq!(document.set(&key, &DynamicObject::Int(9)), Err(DriverError::InvalidKeyType));
    assert_eq!(document.__setitem__(&key, &DynamicObject::Int(9)), Err(DriverError::InvalidKeyType));
    assert_eq!(document.get(&key), Err(DriverError::InvalidKeyType));
    assert_eq!(document.__getitem__(&key), Err(DriverError::InvalidKeyType));
    assert_eq!(document.del(&key), Err(DriverError::InvalidKeyType));
    assert_eq!(document.__delitem__(&key), Err(DriverError::InvalidKeyType));
    assert_eq!(document.contains(&key), Err(DriverError::InvalidKeyType));
    assert_eq!(document.__contains__(&DynamicObject::Nothing), Err(DriverError::InvalidKeyType));
    assert_eq!(document, before);
}

#[test]
fn key_check_accepts_text_only() {
    assert_eq!(key_is_string(&text("k")), Ok(()));
    assert_eq!(key_is_string(&DynamicObject::Int(1)), Err(DriverError::InvalidKeyType));
    assert_eq!(key_is_string(&DynamicObject::Bool(true)), Err(DriverError::InvalidKeyType));
    assert_eq!(
        key_is_string(&DynamicObject::List(vec![text("k")])),
        Err(DriverError::InvalidKeyType)
    );
}

#[test]
fn invalid_key_is_reported_before_an_invalid_value() {
    let mut document = Document::empty();
    let bad = DynamicObject::Unrecognized { runtime_type: "Thing".to_string() };
    assert_eq!(document.set(&DynamicObject::Int(0), &bad), Err(DriverError::InvalidKeyType));
    assert_eq!(
        document.set(&text("k"), &bad),
        Err(DriverError::UnsupportedRuntimeType("Thing".to_string()))
    );
    assert!(document.is_empty());
}

#[test]
fn deleting_an_absent_key_fails_and_changes_nothing() {
    let mut document = Document::new(None, None).unwrap();
    assert_eq!(document.del(&text("missing")), Err(DriverError::KeyNotFound("missing".to_string())));
    assert_eq!(document.len(), 0);
    assert_eq!(document.__len__(), 0);
    assert!(document.is_empty());
    let mut document = abc();
    assert_eq!(document.del(&text("zz")), Err(DriverError::KeyNotFound("zz".to_string())));
    assert_eq!(document, abc());
}

#[test]
fn deleting_keeps_the_order_of_the_rest() {
    let mut document = abc();
    assert_eq!(document.del(&text("a")), Ok(()));
    assert_eq!(document.keys(), vec!["c".to_string(), "b".to_string()]);
    assert_eq!(document.contains(&text("a")), Ok(false));
    assert_eq!(document.contains(&text("b")), Ok(true));
    assert_eq!(document.__delitem__(&text("b")), Ok(()));
    assert_eq!(document.keys(), vec!["c".to_string()]);
}

#[test]
fn get_gives_nothing_for_an_absent_key() {
    let document = abc();
    assert_eq!(document.get(&text("missing")), Ok(None));
    assert_eq!(document.get(&text("a")), Ok(Some(DynamicObject::Int(1))));
}

#[test]
fn subscript_names_the_missing_key() {
    let document = abc();
    assert_eq!(document.__getitem__(&text("b")), Ok(DynamicObject::Int(2)));
    let error = document.__getitem__(&text("nope")).unwrap_err();
    assert_eq!(error, DriverError::KeyNotFound("nope".to_string()));
    assert_eq!(error.message(), "Key not found: 'nope'");
}

#[test]
fn reading_a_member_without_a_form_fails() {
    let mut document = Document::empty();
    document.insert("p".to_string(), Value::DbPointer);
    document.insert("q".to_string(), Value::Int64(1));
    assert_eq!(document.get(&text("p")), Err(DriverError::UnsupportedValueKind));
    assert_eq!(document.__getitem__(&text("p")), Err(DriverError::UnsupportedValueKind));
    assert_eq!(document.get(&text("q")), Ok(Some(DynamicObject::Int(1))));
    assert_eq!(document.values(), Err(DriverError::UnsupportedValueKind));
}

#[test]
fn iteration_fails_at_a_member_without_a_form_and_stays_there() {
    let mut document = Document::empty();
    document.insert("q".to_string(), Value::Int64(1));
    document.insert("p".to_string(), Value::DbPointer);
    document.insert("r".to_string(), Value::Int64(2));
    let mut iter = document.items();
    assert_eq!(iter.__next__(), Ok(Some(("q".to_string(), DynamicObject::Int(1)))));
    assert_eq!(iter.__next__(), Err(DriverError::UnsupportedValueKind));
    assert_eq!(iter.yielded(), 1);
    assert_eq!(iter.__next__(), Err(DriverError::UnsupportedValueKind));
    assert_eq!(iter.yielded(), 1);
    assert_eq!(iter.__len__(), 3);
}

#[test]
fn snapshots_do_not_follow_later_writes() {
    let mut document = abc();
    let keys = document.keys();
    let values = document.values().unwrap();
    let mut iter = document.items();
    document.set(&text("d"), &DynamicObject::Int(4)).unwrap();
    document.del(&text("a")).unwrap();
    assert_eq!(keys, vec!["a".to_string(), "c".to_string(), "b".to_string()]);
    assert_eq!(values, vec![DynamicObject::Int(1), DynamicObject::Int(3), DynamicObject::Int(2)]);
    assert_eq!(iter.__len__(), 3);
    assert_eq!(iter.__next__(), Ok(Some(("a".to_string(), DynamicObject::Int(1)))));
    assert_eq!(iter.__next__(), Ok(Some(("c".to_string(), DynamicObject::Int(3)))));
    assert_eq!(iter.__next__(), Ok(Some(("b".to_string(), DynamicObject::Int(2)))));
    assert_eq!(iter.__next__(), Ok(None));
}

#[test]
fn iteration_does_not_restart() {
    let document = abc();
    let mut iter = document.__iter__();
    assert_eq!(iter.yielded(), 0);
    assert_eq!(iter.__repr__(), "ruson.types.DocumentIter(index=0, len=3)");
    while iter.__next__().unwrap().is_some() {}
    assert_eq!(iter.yielded(), 3);
    assert_eq!(iter.__next__(), Ok(None));
    assert_eq!(iter.__next__(), Ok(None));
    assert_eq!(iter.__len__(), 3);
    assert_eq!(iter.__repr__(), "ruson.types.DocumentIter(index=3, len=3)");
    let mut same = iter.__iter__();
    assert_eq!(same.__next__(), Ok(None));
}

#[test]
fn construction_writes_the_mapping_and_then_the_keywords() {
    let dict = vec![(text("x"), DynamicObject::Int(1)), (text("y"), DynamicObject::Bool(true))];
    let kwargs = vec![(text("z"), DynamicObject::Nothing), (text("x"), text("again"))];
    let document = Document::new(Some(dict), Some(kwargs)).unwrap();
    assert_eq!(document.keys(), vec!["x".to_string(), "y".to_string(), "z".to_string()]);
    assert_eq!(
        document.values(),
        Ok(vec![text("again"), DynamicObject::Bool(true), DynamicObject::Nothing])
    );
}

#[test]
fn construction_is_all_or_nothing() {
    let dict = vec![
        (text("x"), DynamicObject::Int(1)),
        (DynamicObject::Int(2), DynamicObject::Int(2)),
        (text("z"), DynamicObject::Int(3)),
    ];
    assert_eq!(Document::new(Some(dict), None), Err(DriverError::InvalidKeyType));
    let kwargs = vec![
        (text("x"), DynamicObject::Int(1)),
        (text("y"), DynamicObject::Unrecognized { runtime_type: "Decimal".to_string() }),
    ];
    assert_eq!(
        Document::new(None, Some(kwargs)),
        Err(DriverError::UnsupportedRuntimeType("Decimal".to_string()))
    );
}

#[test]
fn copy_and_clear() {
    let mut document = abc();
    let copy = document.copy();
    document.clear();
    assert!(document.is_empty());
    assert_eq!(document.len(), 0);
    assert_eq!(copy, abc());
    assert_eq!(copy.len(), 3);
}

#[test]
fn typed_access_by_key_and_position() {
    let mut document = Document::empty();
    assert_eq!(document.insert("k".to_string(), Value::Int64(1)), None);
    assert_eq!(document.insert("l".to_string(), Value::Null), None);
    assert_eq!(document.insert("k".to_string(), Value::Int64(2)), Some(Value::Int64(1)));
    assert_eq!(document.position(&"l".to_string()), Some(1));
    assert_eq!(document.position(&"m".to_string()), None);
    assert_eq!(document.lookup(&"k".to_string()), Some(&Value::Int64(2)));
    assert!(document.contains_key(&"l".to_string()));
    assert_eq!(document.entry(0), (&"k".to_string(), &Value::Int64(2)));
    assert_eq!(document.remove(&"k".to_string()), Some(Value::Int64(2)));
    assert_eq!(document.remove(&"k".to_string()), None);
    assert_eq!(document.keys(), vec!["l".to_string()]);
}

#[test]
fn nested_values_are_decoded_on_write() {
    let mut document = Document::empty();
    let list = DynamicObject::List(vec![DynamicObject::Int(1), DynamicObject::Float(2.5f64.to_bits())]);
    document.set(&text("list"), &list).unwrap();
    assert_eq!(
        document.lookup(&"list".to_string()),
        Some(&Value::Array(vec![Value::Int64(1), Value::Double(2.5f64.to_bits())]))
    );
}
