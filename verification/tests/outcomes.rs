use ruson::dispatch::{RuntimeType, TypeProfile};
use ruson::error::DriverError;
use ruson::index::{IndexModel, IndexOptions};
use ruson::object::{DynamicObject, ObjectId};
use ruson::results::{
    remote_failure, timeout_or_default, CreateIndexesResult, DeleteResult, InsertManyResult,
    InsertOneResult, UpdateResult, DEFAULT_TIMEOUT,
};
use ruson::value::{Document, Value};

#[test]
fn default_time_limit_is_five_seconds() {
    assert_eq!(DEFAULT_TIMEOUT, 5);
    assert_eq!(timeout_or_default(None), 5);
    assert_eq!(timeout_or_default(Some(0)), 0);
    assert_eq!(timeout_or_default(Some(30)), 30);
}

#[test]
fn insert_outcomes_show_the_identifiers() {
    assert_eq!(
        InsertOneResult::new(&Value::ObjectId([1; 12])),
        Ok(InsertOneResult { inserted_id: DynamicObject::ObjectId(ObjectId { id: [1; 12] }) })
    );
    assert_eq!(InsertOneResult::new(&Value::DbPointer), Err(DriverError::UnsupportedValueKind));
    assert_eq!(
        InsertManyResult::new(&vec![Value::Int32(1), Value::String("b".to_string())]),
        Ok(InsertManyResult {
            inserted_ids: vec![DynamicObject::Int(1), DynamicObject::Text("b".to_string())],
        })
    );
    assert_eq!(InsertManyResult::new(&vec![]), Ok(InsertManyResult { inserted_ids: vec![] }));
    assert_eq!(
        InsertManyResult::new(&vec![Value::Int32(1), Value::DbPointer]),
        Err(DriverError::UnsupportedValueKind)
    );
}

#[test]
fn update_outcome_keeps_counts_and_identifier() {
    assert_eq!(
        UpdateResult::new(3, 2, None),
        Ok(UpdateResult { matched_count: 3, modified_count: 2, upserted_id: None })
    );
    assert_eq!(
        UpdateResult::new(0, 0, Some(&Value::Int64(9))),
        Ok(UpdateResult {
            matched_count: 0,
            modified_count: 0,
            upserted_id: Some(DynamicObject::Int(9)),
        })
    );
    assert_eq!(
        UpdateResult::new(0, 0, Some(&Value::DbPointer)),
        Err(DriverError::UnsupportedValueKind)
    );
}

#[test]
fn plain_outcomes() {
    assert_eq!(DeleteResult { deleted_count: 4 }.deleted_count, 4);
    let created = CreateIndexesResult { index_names: vec!["a_1".to_string()] };
    assert_eq!(created.index_names, vec!["a_1".to_string()]);
    assert_eq!(
        remote_failure("no primary".to_string()),
        DriverError::RemoteOperationFailed("no primary".to_string())
    );
}

#[test]
fn index_model_builds_its_keys_as_a_document() {
    let keys = vec![
        (DynamicObject::Text("b".to_string()), DynamicObject::Int(1)),
        (DynamicObject::Text("a".to_string()), DynamicObject::Int(-1)),
    ];
    let model = IndexModel::new(keys, None).unwrap();
    assert_eq!(model.keys.keys(), vec!["b".to_string(), "a".to_string()]);
    assert_eq!(model.keys.lookup(&"a".to_string()), Some(&Value::Int64(-1)));
    assert_eq!(model.options, None);
    let bad = vec![(DynamicObject::Int(1), DynamicObject::Int(1))];
    assert_eq!(IndexModel::new(bad, None), Err(DriverError::InvalidKeyType));
    let bad = vec![(
        DynamicObject::Text("a".to_string()),
        DynamicObject::Unrecognized { runtime_type: "object".to_string() },
    )];
    assert_eq!(
        IndexModel::new(bad, None),
        Err(DriverError::UnsupportedRuntimeType("object".to_string()))
    );
}

#[test]
fn index_options_keep_every_setting() {
    let mut weights = Document::empty();
    weights.insert("title".to_string(), Value::Int32(10));
    let options = IndexOptions::new(
        Some("n".to_string()),
        Some(true),
        Some(false),
        Some("english".to_string()),
        Some("lang".to_string()),
        Some(weights.copy()),
        Some(26),
        Some(180.0f64.to_bits()),
        Some((-180.0f64).to_bits()),
        Some(2),
        Some(Document::empty()),
        None,
        Some(true),
    );
    assert_eq!(options.name, Some("n".to_string()));
    assert_eq!(options.sparse, Some(true));
    assert_eq!(options.unique, Some(false));
    assert_eq!(options.default_language, Some("english".to_string()));
    assert_eq!(options.language_override, Some("lang".to_string()));
    assert_eq!(options.weigths, Some(weights));
    assert_eq!(options.bits, Some(26));
    assert_eq!(options.max.map(f64::from_bits), Some(180.0));
    assert_eq!(options.min.map(f64::from_bits), Some(-180.0));
    assert_eq!(options.bucket_size, Some(2));
    assert_eq!(options.partial_filter_expression, Some(Document::empty()));
    assert_eq!(options.wildcard_projection, None);
    assert_eq!(options.hidden, Some(true));
    assert_eq!(options.copy(), options);
}

#[test]
fn most_specific_runtime_type_is_picked() {
    let mut profile = TypeProfile::unknown();
    assert_eq!(profile.classify(), None);
    profile.integer = true;
    assert_eq!(profile.classify(), Some(RuntimeType::Int));
    profile.boolean = true;
    assert_eq!(profile.classify(), Some(RuntimeType::Bool));
    profile.text = true;
    assert_eq!(profile.classify(), Some(RuntimeType::Text));
    profile.float = true;
    assert_eq!(profile.classify(), Some(RuntimeType::Float));
    profile.document = true;
    assert_eq!(profile.classify(), Some(RuntimeType::Document));
    profile.symbol = true;
    assert_eq!(profile.classify(), Some(RuntimeType::Symbol));
}

#[test]
fn wrappers_shadow_the_scalars_they_resemble() {
    let mut profile = TypeProfile::unknown();
    profile.text = true;
    profile.regex = true;
    assert_eq!(profile.classify(), Some(RuntimeType::Regex));
    let mut profile = TypeProfile::unknown();
    profile.integer = true;
    profile.float = true;
    profile.decimal128 = true;
    assert_eq!(profile.classify(), Some(RuntimeType::Decimal128));
    let mut profile = TypeProfile::unknown();
    profile.list = true;
    profile.binary = true;
    assert_eq!(profile.classify(), Some(RuntimeType::Binary));
    let mut profile = TypeProfile::unknown();
    profile.nothing = true;
    assert_eq!(profile.classify(), Some(RuntimeType::Nothing));
    profile.date_time = true;
    assert_eq!(profile.classify(), Some(RuntimeType::DateTime));
}
