use ruson::object::{NativeDateTime, ObjectId};
use ruson::object_id::ObjectIdError;

#[test]
fn valid_texts_are_24_hexadecimal_digits() {
    assert!(ObjectId::is_valid("654a0001020304050607abcd"));
    assert!(ObjectId::is_valid("654A0001020304050607ABCD"));
    assert!(ObjectId::is_valid("000000000000000000000000"));
    assert!(!ObjectId::is_valid(""));
    assert!(!ObjectId::is_valid("654a0001020304050607abc"));
    assert!(!ObjectId::is_valid("654a0001020304050607abcde"));
    assert!(!ObjectId::is_valid("654a0001020304050607abcg"));
    assert!(!ObjectId::is_valid("+54a0001020304050607abcd"));
    assert!(!ObjectId::is_valid("654a0001020304050607ab\u{e9}"));
}

#[test]
fn text_is_read_pair_by_pair() {
    assert_eq!(
        ObjectId::from_str("654a0001020304050607abcd"),
        Ok(ObjectId { id: [0x65, 0x4a, 0, 1, 2, 3, 4, 5, 6, 7, 0xab, 0xcd] })
    );
    assert_eq!(
        ObjectId::from_str("FFfe0001020304050607ABcD"),
        Ok(ObjectId { id: [0xff, 0xfe, 0, 1, 2, 3, 4, 5, 6, 7, 0xab, 0xcd] })
    );
    assert_eq!(
        ObjectId::from_str("+a+b+c+d+e+f+0+1+2+3+4+5"),
        Ok(ObjectId { id: [10, 11, 12, 13, 14, 15, 0, 1, 2, 3, 4, 5] })
    );
}

#[test]
fn text_of_a_wrong_length_is_refused() {
    assert_eq!(ObjectId::from_str(""), Err(ObjectIdError::InvalidLength));
    assert_eq!(ObjectId::from_str("654a"), Err(ObjectIdError::InvalidLength));
    assert_eq!(
        ObjectId::from_str("654a0001020304050607abcd00"),
        Err(ObjectIdError::InvalidLength)
    );
    assert_eq!(ObjectIdError::InvalidLength.message(), "Value is not a valid ObjectId");
}

#[test]
fn text_with_a_pair_that_is_no_number_is_refused() {
    assert_eq!(ObjectId::from_str("654a0001020304050607abcg"), Err(ObjectIdError::InvalidBytes));
    assert_eq!(ObjectId::from_str("6+4a0001020304050607abcd"), Err(ObjectIdError::InvalidBytes));
    assert_eq!(ObjectId::from_str("-54a0001020304050607abcd"), Err(ObjectIdError::InvalidBytes));
    assert_eq!(ObjectId::from_str("++4a0001020304050607abcd"), Err(ObjectIdError::InvalidBytes));
    assert_eq!(
        ObjectId::from_str("654a0001020304050607ab\u{e9}"),
        Err(ObjectIdError::InvalidBytes)
    );
    assert_eq!(
        ObjectIdError::InvalidBytes.message(),
        "Value is not a valid ObjectId, invalid bytes found"
    );
}

#[test]
fn text_written_by_the_library_is_read_back() {
    let id = ObjectId { id: [0, 0x0f, 0xf0, 0xff, 1, 2, 3, 4, 5, 6, 7, 8] };
    assert!(ObjectId::is_valid(&id.__str__()));
    assert_eq!(ObjectId::from_str(&id.__str__()), Ok(id));
}

#[test]
fn fresh_identifiers_differ() {
    let first = ObjectId::new();
    let second = ObjectId::new();
    assert_ne!(first, second);
    assert!(ObjectId::is_valid(&first.__str__()));
}

#[test]
fn calendar_fields_give_milliseconds_since_the_epoch() {
    assert_eq!(
        NativeDateTime::from_calendar(1970, 1, 1, 0, 0, 0, 0),
        Some(NativeDateTime { millis: 0 })
    );
    assert_eq!(
        NativeDateTime::from_calendar(1970, 1, 1, 0, 0, 1, 250),
        Some(NativeDateTime { millis: 1_250 })
    );
    assert_eq!(
        NativeDateTime::from_calendar(2000, 1, 1, 0, 0, 0, 0),
        Some(NativeDateTime { millis: 946_684_800_000 })
    );
    assert_eq!(
        NativeDateTime::from_calendar(2024, 2, 29, 23, 59, 59, 999),
        Some(NativeDateTime { millis: 1_709_251_199_999 })
    );
    assert_eq!(
        NativeDateTime::from_calendar(1969, 12, 31, 23, 59, 59, 0),
        Some(NativeDateTime { millis: -1_000 })
    );
}

#[test]
fn fields_that_name_no_moment_give_nothing() {
    assert_eq!(NativeDateTime::from_calendar(2023, 2, 29, 0, 0, 0, 0), None);
    assert_eq!(NativeDateTime::from_calendar(2023, 13, 1, 0, 0, 0, 0), None);
    assert_eq!(NativeDateTime::from_calendar(2023, 0, 1, 0, 0, 0, 0), None);
    assert_eq!(NativeDateTime::from_calendar(2023, 1, 1, 24, 0, 0, 0), None);
    assert_eq!(NativeDateTime::from_calendar(2023, 1, 1, 0, 60, 0, 0), None);
    assert_eq!(NativeDateTime::from_calendar(2023, 1, 1, 0, 0, 60, 0), None);
    assert_eq!(NativeDateTime::from_calendar(2023, 1, 1, 0, 0, 0, 1000), None);
}

#[test]
fn moments_keep_their_milliseconds() {
    let moment = NativeDateTime::from_millis(1_700_000_000_123);
    assert_eq!(moment.timestamp_millis(), 1_700_000_000_123);
    assert_eq!(moment, NativeDateTime { millis: 1_700_000_000_123 });
}
