use crate::binary_subtype::{
    from_subtype, lemma_subtype_round_trip, pair_of_subtype, subtype_of_pair, BinarySubtype,
};
use crate::error::{result_view, DriverError, ErrorView};
use crate::object::{
    objects_view, Binary, Decimal128, DynamicObject, JavaScriptCode, JavaScriptCodeWithScope,
    MaxKey, MinKey, NativeDateTime, ObjectId, ObjectView, Regex, Symbol, Timestamp, Undefined,
};
use crate::value::{
    all_supported, copy_bytes, entries_supported, supported, values_view, Value, ValueView,
};
use vstd::prelude::*;

verus! {

/// The host's form of a value, or the failure that showing it meets.
///
/// Every kind maps to one form. A double, a text, a boolean, an integer and
/// the null value map to the host's own float, text, boolean, integer and
/// absence; an array maps to the list of the forms of its items; a document
/// maps to the document container; the other kinds map to their wrappers,
/// which keep the raw fields. A value that holds, at any depth, the kind
/// without a form fails with `UnsupportedValueKind`.
pub open spec fn encode_spec(value: ValueView) -> Result<ObjectView, ErrorView>
    decreases value,
{
    match value {
        ValueView::Double(bits) => Ok(ObjectView::Float(bits)),
        ValueView::String(text) => Ok(ObjectView::Text(text)),
        ValueView::Array(items) => match encode_all(items) {
            Ok(objects) => Ok(ObjectView::List(objects)),
            Err(error) => Err(error),
        },
        ValueView::Document(entries) => if entries_supported(entries) {
            Ok(ObjectView::Document(entries))
        } else {
            Err(ErrorView::UnsupportedValueKind)
        },
        ValueView::Boolean(b) => Ok(ObjectView::Bool(b)),
        ValueView::Null => Ok(ObjectView::Nothing),
        ValueView::Regex { pattern, options } => Ok(ObjectView::Regex { pattern, options }),
        ValueView::JsCode(code) => Ok(ObjectView::JavaScriptCode(code)),
        ValueView::JsCodeWithScope { code, scope } => if entries_supported(scope) {
            Ok(ObjectView::JavaScriptCodeWithScope { code, scope })
        } else {
            Err(ErrorView::UnsupportedValueKind)
        },
        ValueView::Int32(v) => Ok(ObjectView::Int(v as i64)),
        ValueView::Int64(v) => Ok(ObjectView::Int(v)),
        ValueView::Timestamp { seconds, ordinal } => Ok(
            ObjectView::Timestamp { timestamp: seconds, increment: ordinal },
        ),
        ValueView::Binary { subtype, bytes } => Ok(
            ObjectView::Binary { subtype: pair_of_subtype(subtype), bytes },
        ),
        ValueView::ObjectId(id) => Ok(ObjectView::ObjectId(id)),
        ValueView::DateTime(millis) => Ok(ObjectView::DateTime(millis)),
        ValueView::Decimal128(bytes) => Ok(ObjectView::Decimal128(bytes)),
        ValueView::Symbol(symbol) => Ok(ObjectView::Symbol(symbol)),
        ValueView::Undefined => Ok(ObjectView::Undefined),
        ValueView::MaxKey => Ok(ObjectView::MaxKey),
        ValueView::MinKey => Ok(ObjectView::MinKey),
        ValueView::DbPointer => Err(ErrorView::UnsupportedValueKind),
    }
}

/// The forms of the items, in order, or the failure of the first item that
/// has none.
pub open spec fn encode_all(items: Seq<ValueView>) -> Result<Seq<ObjectView>, ErrorView>
    decreases items,
{
    if items.len() == 0 {
        Ok(Seq::empty())
    } else {
        match encode_all(items.drop_last()) {
            Err(error) => Err(error),
            Ok(objects) => match encode_spec(items.last()) {
                Err(error) => Err(error),
                Ok(object) => Ok(objects.push(object)),
            },
        }
    }
}

/// The value that a host object stands for, or the failure that reading it
/// meets.
///
/// The wrappers give their kinds back, with their raw fields; the host's
/// float, text, list, boolean and date-time give a double, a text, an array,
/// a boolean and a date-time; the absence of a value gives null; a plain
/// integer gives a 64-bit integer. An object of an unknown runtime type fails
/// with `UnsupportedRuntimeType` and the name of that type; a document that
/// holds the kind without a form fails with `UnsupportedValueKind`.
pub open spec fn decode_spec(object: ObjectView) -> Result<ValueView, ErrorView>
    decreases object,
{
    match object {
        ObjectView::Nothing => Ok(ValueView::Null),
        ObjectView::Float(bits) => Ok(ValueView::Double(bits)),
        ObjectView::Text(text) => Ok(ValueView::String(text)),
        ObjectView::List(items) => match decode_all(items) {
            Ok(values) => Ok(ValueView::Array(values)),
            Err(error) => Err(error),
        },
        ObjectView::Bool(b) => Ok(ValueView::Boolean(b)),
        ObjectView::Int(v) => Ok(ValueView::Int64(v)),
        ObjectView::DateTime(millis) => Ok(ValueView::DateTime(millis)),
        ObjectView::Document(entries) => if entries_supported(entries) {
            Ok(ValueView::Document(entries))
        } else {
            Err(ErrorView::UnsupportedValueKind)
        },
        ObjectView::Symbol(symbol) => Ok(ValueView::Symbol(symbol)),
        ObjectView::Regex { pattern, options } => Ok(ValueView::Regex { pattern, options }),
        ObjectView::JavaScriptCode(code) => Ok(ValueView::JsCode(code)),
        ObjectView::JavaScriptCodeWithScope { code, scope } => if entries_supported(scope) {
            Ok(ValueView::JsCodeWithScope { code, scope })
        } else {
            Err(ErrorView::UnsupportedValueKind)
        },
        ObjectView::Timestamp { timestamp, increment } => Ok(
            ValueView::Timestamp { seconds: timestamp, ordinal: increment },
        ),
        ObjectView::Binary { subtype, bytes } => Ok(
            ValueView::Binary { subtype: subtype_of_pair(subtype.id, subtype.value), bytes },
        ),
        ObjectView::ObjectId(id) => Ok(ValueView::ObjectId(id)),
        ObjectView::Decimal128(bytes) => Ok(ValueView::Decimal128(bytes)),
        ObjectView::Undefined => Ok(ValueView::Undefined),
        ObjectView::MaxKey => Ok(ValueView::MaxKey),
        ObjectView::MinKey => Ok(ValueView::MinKey),
        ObjectView::Unrecognized { runtime_type } => Err(
            ErrorView::UnsupportedRuntimeType(runtime_type),
        ),
    }
}

/// The values of the objects, in order, or the failure of the first object
/// that stands for none.
pub open spec fn decode_all(items: Seq<ObjectView>) -> Result<Seq<ValueView>, ErrorView>
    decreases items,
{
    if items.len() == 0 {
        Ok(Seq::empty())
    } else {
        match decode_all(items.drop_last()) {
            Err(error) => Err(error),
            Ok(values) => match decode_spec(items.last()) {
                Err(error) => Err(error),
                Ok(value) => Ok(values.push(value)),
            },
        }
    }
}

/// A value as it comes back from the host: a 32-bit integer, alone or inside
/// arrays, has become a 64-bit integer of the same number, since the host
/// has one kind of integer. Documents are handed over whole and keep theirs.
pub open spec fn widened(value: ValueView) -> ValueView
    decreases value,
{
    match value {
        ValueView::Int32(v) => ValueView::Int64(v as i64),
        ValueView::Array(items) => ValueView::Array(widened_all(items)),
        _ => value,
    }
}

/// The items as they come back from the host, in order.
pub open spec fn widened_all(items: Seq<ValueView>) -> Seq<ValueView>
    decreases items,
{
    Seq::new(
        items.len(),
        |i: int|
            if 0 <= i < items.len() {
                widened(items[i])
            } else {
                ValueView::Null
            },
    )
}

/// Whether no 32-bit integer stands in the value itself or inside its arrays.
pub open spec fn keeps_width(value: ValueView) -> bool
    decreases value,
{
    match value {
        ValueView::Int32(_) => false,
        ValueView::Array(items) => forall|i: int|
            0 <= i < items.len() ==> keeps_width(#[trigger] items[i]),
        _ => true,
    }
}

/// A longer sequence extends the result of a shorter one by one step.
pub proof fn lemma_encode_all_step(items: Seq<ValueView>, n: int)
    requires
        0 <= n < items.len(),
    ensures
        encode_all(items.subrange(0, n + 1)) == match encode_all(items.subrange(0, n)) {
            Err(error) => Err(error),
            Ok(objects) => match encode_spec(items[n]) {
                Err(error) => Err(error),
                Ok(object) => Ok(objects.push(object)),
            },
        },
{
    let longer = items.subrange(0, n + 1);
    assert(longer.drop_last() =~= items.subrange(0, n));
    assert(longer.last() == items[n]);
}

/// Once a prefix fails, the whole sequence fails in the same way.
pub proof fn lemma_encode_all_prefix_error(items: Seq<ValueView>, n: int)
    requires
        0 <= n <= items.len(),
        encode_all(items.subrange(0, n)) is Err,
    ensures
        encode_all(items) == encode_all(items.subrange(0, n)),
    decreases items.len() - n,
{
    if n == items.len() {
        assert(items.subrange(0, n) =~= items);
    } else {
        lemma_encode_all_step(items, n);
        lemma_encode_all_prefix_error(items, n + 1);
    }
}

/// A longer sequence extends the result of a shorter one by one step.
pub proof fn lemma_decode_all_step(items: Seq<ObjectView>, n: int)
    requires
        0 <= n < items.len(),
    ensures
        decode_all(items.subrange(0, n + 1)) == match decode_all(items.subrange(0, n)) {
            Err(error) => Err(error),
            Ok(values) => match decode_spec(items[n]) {
                Err(error) => Err(error),
                Ok(value) => Ok(values.push(value)),
            },
        },
{
    let longer = items.subrange(0, n + 1);
    assert(longer.drop_last() =~= items.subrange(0, n));
    assert(longer.last() == items[n]);
}

/// Once a prefix fails, the whole sequence fails in the same way.
pub proof fn lemma_decode_all_prefix_error(items: Seq<ObjectView>, n: int)
    requires
        0 <= n <= items.len(),
        decode_all(items.subrange(0, n)) is Err,
    ensures
        decode_all(items) == decode_all(items.subrange(0, n)),
    decreases items.len() - n,
{
    if n == items.len() {
        assert(items.subrange(0, n) =~= items);
    } else {
        lemma_decode_all_step(items, n);
        lemma_decode_all_prefix_error(items, n + 1);
    }
}

/// What a sequence gives when every item has a form: as many forms, each
/// the form of the item at its place.
proof fn lemma_encode_all_items(items: Seq<ValueView>)
    ensures
        encode_all(items) is Ok <==> all_supported(items),
        encode_all(items) is Err ==> encode_all(items) == Err::<Seq<ObjectView>, ErrorView>(
            ErrorView::UnsupportedValueKind,
        ),
        encode_all(items) is Ok ==> encode_all(items)->Ok_0.len() == items.len(),
        encode_all(items) is Ok ==> forall|i: int|
            0 <= i < items.len() ==> encode_spec(#[trigger] items[i]) == Ok::<
                ObjectView,
                ErrorView,
            >(encode_all(items)->Ok_0[i]),
    decreases items, 0nat,
{
    if items.len() > 0 {
        let front = items.drop_last();
        lemma_encode_all_items(front);
        lemma_encode_outcome(items.last());
        assert(forall|i: int| 0 <= i < front.len() ==> front[i] == items[i]);
        if all_supported(items) {
            assert(forall|i: int| 0 <= i < front.len() ==> supported(#[trigger] front[i])) by {
                assert(forall|i: int| 0 <= i < front.len() ==> front[i] == items[i]);
            }
            assert(supported(items[items.len() - 1]));
        }
        if encode_all(items) is Ok {
            assert forall|i: int| 0 <= i < items.len() implies supported(#[trigger] items[i]) by {
                if i < front.len() {
                    assert(supported(front[i]));
                }
            }
        }
    }
}

/// Showing a value to the host succeeds exactly when the value is supported,
/// and fails in one way only.
pub proof fn lemma_encode_outcome(value: ValueView)
    ensures
        encode_spec(value) is Ok <==> supported(value),
        encode_spec(value) is Err ==> encode_spec(value) == Err::<ObjectView, ErrorView>(
            ErrorView::UnsupportedValueKind,
        ),
    decreases value, 1nat,
{
    match value {
        ValueView::Array(items) => {
            lemma_encode_all_items(items);
        },
        _ => {},
    }
}

/// Whether a host object stands for a value: neither it nor any item of its
/// lists is of an unknown runtime type, and its documents are supported.
pub open spec fn readable(object: ObjectView) -> bool
    decreases object,
{
    match object {
        ObjectView::Unrecognized { .. } => false,
        ObjectView::List(items) => forall|i: int|
            0 <= i < items.len() ==> readable(#[trigger] items[i]),
        ObjectView::Document(entries) => entries_supported(entries),
        ObjectView::JavaScriptCodeWithScope { scope, .. } => entries_supported(scope),
        _ => true,
    }
}

/// What a sequence of objects gives when each stands for a value: as many
/// values, each supported.
proof fn lemma_decode_all_items(items: Seq<ObjectView>)
    ensures
        decode_all(items) is Ok <==> forall|i: int|
            0 <= i < items.len() ==> readable(#[trigger] items[i]),
        decode_all(items) is Ok ==> all_supported(decode_all(items)->Ok_0),
    decreases items, 0nat,
{
    if items.len() > 0 {
        let front = items.drop_last();
        lemma_decode_all_items(front);
        lemma_decode_outcome(items.last());
        assert(forall|i: int| 0 <= i < front.len() ==> front[i] == items[i]);
        if forall|i: int| 0 <= i < items.len() ==> readable(#[trigger] items[i]) {
            assert forall|i: int| 0 <= i < front.len() implies readable(#[trigger] front[i]) by {
                assert(front[i] == items[i]);
            }
            assert(readable(items[items.len() - 1]));
        }
        if decode_all(items) is Ok {
            assert forall|i: int| 0 <= i < items.len() implies readable(#[trigger] items[i]) by {
                if i < front.len() {
                    assert(readable(front[i]));
                }
            }
            let values = decode_all(items)->Ok_0;
            let front_values = decode_all(front)->Ok_0;
            assert forall|i: int| 0 <= i < values.len() implies supported(#[trigger] values[i]) by {
                if i < front_values.len() {
                    assert(values[i] == front_values[i]);
                }
            }
        }
    }
}

/// Reading a host object succeeds exactly when the object stands for a
/// value, and the value that it gives is supported: whatever was read from
/// the host can be shown to it again.
pub proof fn lemma_decode_outcome(object: ObjectView)
    ensures
        decode_spec(object) is Ok <==> readable(object),
        decode_spec(object) is Ok ==> supported(decode_spec(object)->Ok_0),
    decreases object, 1nat,
{
    match object {
        ObjectView::List(items) => {
            lemma_decode_all_items(items);
        },
        _ => {},
    }
}

/// The items of a supported sequence come back from the host widened.
proof fn lemma_decode_encode_all(items: Seq<ValueView>)
    requires
        all_supported(items),
    ensures
        encode_all(items) is Ok,
        decode_all(encode_all(items)->Ok_0) == Ok::<Seq<ValueView>, ErrorView>(widened_all(items)),
    decreases items, 0nat,
{
    lemma_encode_all_items(items);
    if items.len() == 0 {
        assert(widened_all(items) =~= Seq::<ValueView>::empty());
    } else {
        let front = items.drop_last();
        assert(forall|i: int| 0 <= i < front.len() ==> supported(#[trigger] front[i])) by {
            assert(forall|i: int| 0 <= i < front.len() ==> front[i] == items[i]);
        }
        assert(supported(items[items.len() - 1]));
        lemma_decode_encode_all(front);
        lemma_decode_encode(items.last());
        let objects = encode_all(items)->Ok_0;
        let front_objects = encode_all(front)->Ok_0;
        let last_object = encode_spec(items.last())->Ok_0;
        assert(objects == front_objects.push(last_object));
        assert(objects.drop_last() =~= front_objects);
        assert(objects.last() == last_object);
        assert(widened_all(front).push(widened(items.last())) =~= widened_all(items));
    }
}

/// A supported value that is shown to the host and read back is the same
/// value, except that a 32-bit integer, alone or inside arrays, comes back
/// as the 64-bit integer of the same number.
pub proof fn lemma_decode_encode(value: ValueView)
    requires
        supported(value),
    ensures
        encode_spec(value) is Ok,
        decode_spec(encode_spec(value)->Ok_0) == Ok::<ValueView, ErrorView>(widened(value)),
    decreases value, 1nat,
{
    match value {
        ValueView::Array(items) => {
            lemma_decode_encode_all(items);
        },
        ValueView::Binary { subtype, .. } => {
            lemma_subtype_round_trip(subtype);
        },
        _ => {},
    }
}

/// Widening changes nothing in a value without 32-bit integers.
pub proof fn lemma_widened_keeps(value: ValueView)
    requires
        keeps_width(value),
    ensures
        widened(value) == value,
    decreases value,
{
    match value {
        ValueView::Array(items) => {
            assert forall|i: int| 0 <= i < items.len() implies widened(#[trigger] items[i])
                == items[i] by {
                lemma_widened_keeps(items[i]);
            }
            assert(widened_all(items) =~= items);
        },
        _ => {},
    }
}

/// Round trip: a supported value without 32-bit integers outside its
/// documents is shown to the host and read back unchanged, byte for byte in
/// its binary payloads and field for field in its timestamps.
pub proof fn lemma_round_trip(value: ValueView)
    requires
        supported(value),
        keeps_width(value),
    ensures
        encode_spec(value) is Ok,
        decode_spec(encode_spec(value)->Ok_0) == Ok::<ValueView, ErrorView>(value),
{
    lemma_decode_encode(value);
    lemma_widened_keeps(value);
}

/// Reading a host object fails with `UnsupportedRuntimeType` on an object of
/// an unknown runtime type, and the failure names that type.
pub proof fn lemma_decode_unrecognized(runtime_type: Seq<char>)
    ensures
        decode_spec(ObjectView::Unrecognized { runtime_type }) == Err::<ValueView, ErrorView>(
            ErrorView::UnsupportedRuntimeType(runtime_type),
        ),
{
}

/// Converts a value to the host's form of it.
///
/// Succeeds exactly on the values that hold the kind without a form nowhere,
/// and then gives the form that `encode_spec` describes; on the others it
/// fails with `UnsupportedValueKind` and gives nothing.
pub fn encode(value: &Value) -> (result: Result<DynamicObject, DriverError>)
    ensures
        result_view(result) == encode_spec(value@),
    decreases value,
{
    match value {
        Value::Double(bits) => Ok(DynamicObject::Float(*bits)),
        Value::String(text) => Ok(DynamicObject::Text(text.clone())),
        Value::Array(items) => {
            let ghost views = values_view(items@);
            let mut objects: Vec<DynamicObject> = Vec::with_capacity(items.len());
            let mut i: usize = 0;
            assert(views.subrange(0, 0) =~= Seq::<ValueView>::empty());
            assert(objects_view(objects@) =~= Seq::<ObjectView>::empty());
            while i < items.len()
                invariant
                    i <= items.len(),
                    *value == Value::Array(*items),
                    views == values_view(items@),
                    encode_all(views.subrange(0, i as int)) == Ok::<Seq<ObjectView>, ErrorView>(
                        objects_view(objects@),
                    ),
                decreases items.len() - i,
            {
                proof {
                    assert(decreases_to!(*value => value->Array_0));
                    assert(decreases_to!(*items => items@));
                    assert(decreases_to!(items@ => items@[i as int]));
                    lemma_encode_all_step(views, i as int);
                }
                match encode(&items[i]) {
                    Ok(object) => {
                        let ghost before = objects_view(objects@);
                        objects.push(object);
                        assert(objects_view(objects@) =~= before.push(object@));
                    },
                    Err(error) => {
                        proof {
                            lemma_encode_all_prefix_error(views, i as int + 1);
                        }
                        return Err(error);
                    },
                }
                i += 1;
            }
            assert(views.subrange(0, i as int) =~= views);
            Ok(DynamicObject::List(objects))
        },
        Value::Document(document) => if document.is_supported() {
            Ok(DynamicObject::Document(document.clone()))
        } else {
            Err(DriverError::UnsupportedValueKind)
        },
        Value::Boolean(b) => Ok(DynamicObject::Bool(*b)),
        Value::Null => Ok(DynamicObject::Nothing),
        Value::Regex { pattern, options } => Ok(
            DynamicObject::Regex(Regex { pattern: pattern.clone(), options: options.clone() }),
        ),
        Value::JsCode(code) => Ok(DynamicObject::JavaScriptCode(JavaScriptCode { code: code.clone() })),
        Value::JsCodeWithScope { code, scope } => if scope.is_supported() {
            Ok(
                DynamicObject::JavaScriptCodeWithScope(
                    JavaScriptCodeWithScope { code: code.clone(), scope: scope.clone() },
                ),
            )
        } else {
            Err(DriverError::UnsupportedValueKind)
        },
        Value::Int32(v) => Ok(DynamicObject::Int(*v as i64)),
        Value::Int64(v) => Ok(DynamicObject::Int(*v)),
        Value::Timestamp { seconds, ordinal } => Ok(
            DynamicObject::Timestamp(Timestamp { timestamp: *seconds, increment: *ordinal }),
        ),
        Value::Binary { subtype, bytes } => Ok(
            DynamicObject::Binary(
                Binary { subtype: BinarySubtype::of_kind(*subtype), bytes: copy_bytes(bytes) },
            ),
        ),
        Value::ObjectId(id) => Ok(DynamicObject::ObjectId(ObjectId { id: *id })),
        Value::DateTime(millis) => Ok(DynamicObject::DateTime(NativeDateTime { millis: *millis })),
        Value::Decimal128(bytes) => Ok(DynamicObject::Decimal128(Decimal128 { bytes: *bytes })),
        Value::Symbol(symbol) => Ok(DynamicObject::Symbol(Symbol { symbol: symbol.clone() })),
        Value::Undefined => Ok(DynamicObject::Undefined(Undefined)),
        Value::MaxKey => Ok(DynamicObject::MaxKey(MaxKey)),
        Value::MinKey => Ok(DynamicObject::MinKey(MinKey)),
        Value::DbPointer => Err(DriverError::UnsupportedValueKind),
    }
}

/// Converts a host object to the value that it stands for.
///
/// Succeeds exactly on the objects that `decode_spec` gives a value, and then
/// returns that value; otherwise it returns the failure of the first part, in
/// order, that stands for none.
pub fn decode(object: &DynamicObject) -> (result: Result<Value, DriverError>)
    ensures
        result_view(result) == decode_spec(object@),
    decreases object,
{
    match object {
        DynamicObject::Nothing => Ok(Value::Null),
        DynamicObject::Float(bits) => Ok(Value::Double(*bits)),
        DynamicObject::Text(text) => Ok(Value::String(text.clone())),
        DynamicObject::List(items) => {
            let ghost views = objects_view(items@);
            let mut values: Vec<Value> = Vec::with_capacity(items.len());
            let mut i: usize = 0;
            assert(views.subrange(0, 0) =~= Seq::<ObjectView>::empty());
            assert(values_view(values@) =~= Seq::<ValueView>::empty());
            while i < items.len()
                invariant
                    i <= items.len(),
                    *object == DynamicObject::List(*items),
                    views == objects_view(items@),
                    decode_all(views.subrange(0, i as int)) == Ok::<Seq<ValueView>, ErrorView>(
                        values_view(values@),
                    ),
                decreases items.len() - i,
            {
                proof {
                    assert(decreases_to!(*object => object->List_0));
                    assert(decreases_to!(*items => items@));
                    assert(decreases_to!(items@ => items@[i as int]));
                    lemma_decode_all_step(views, i as int);
                }
                match decode(&items[i]) {
                    Ok(value) => {
                        let ghost before = values_view(values@);
                        values.push(value);
                        assert(values_view(values@) =~= before.push(value@));
                    },
                    Err(error) => {
                        proof {
                            lemma_decode_all_prefix_error(views, i as int + 1);
                        }
                        return Err(error);
                    },
                }
                i += 1;
            }
            assert(views.subrange(0, i as int) =~= views);
            Ok(Value::Array(values))
        },
        DynamicObject::Bool(b) => Ok(Value::Boolean(*b)),
        DynamicObject::Int(v) => Ok(Value::Int64(*v)),
        DynamicObject::DateTime(moment) => Ok(Value::DateTime(moment.millis)),
        DynamicObject::Document(document) => if document.is_supported() {
            Ok(Value::Document(document.clone()))
        } else {
            Err(DriverError::UnsupportedValueKind)
        },
        DynamicObject::Symbol(wrapper) => Ok(Value::Symbol(wrapper.symbol.clone())),
        DynamicObject::Regex(wrapper) => Ok(
            Value::Regex { pattern: wrapper.pattern.clone(), options: wrapper.options.clone() },
        ),
        DynamicObject::JavaScriptCode(wrapper) => Ok(Value::JsCode(wrapper.code.clone())),
        DynamicObject::JavaScriptCodeWithScope(wrapper) => if wrapper.scope.is_supported() {
            Ok(Value::JsCodeWithScope { code: wrapper.code.clone(), scope: wrapper.scope.clone() })
        } else {
            Err(DriverError::UnsupportedValueKind)
        },
        DynamicObject::Timestamp(wrapper) => Ok(
            Value::Timestamp { seconds: wrapper.timestamp, ordinal: wrapper.increment },
        ),
        DynamicObject::Binary(wrapper) => Ok(
            Value::Binary {
                subtype: from_subtype(wrapper.subtype.id, wrapper.subtype.value),
                bytes: copy_bytes(&wrapper.bytes),
            },
        ),
        DynamicObject::ObjectId(wrapper) => Ok(Value::ObjectId(wrapper.id)),
        DynamicObject::Decimal128(wrapper) => Ok(Value::Decimal128(wrapper.bytes)),
        DynamicObject::Undefined(_) => Ok(Value::Undefined),
        DynamicObject::MaxKey(_) => Ok(Value::MaxKey),
        DynamicObject::MinKey(_) => Ok(Value::MinKey),
        DynamicObject::Unrecognized { runtime_type } => Err(
            DriverError::UnsupportedRuntimeType(runtime_type.clone()),
        ),
    }
}

/// Converts values to the host's forms of them, in order. One value without
/// a form fails the whole, with the failure of the first such value.
pub fn encode_values(values: &Vec<Value>) -> (result: Result<Vec<DynamicObject>, DriverError>)
    ensures
        match result {
            Ok(objects) => encode_all(values_view(values@)) == Ok::<Seq<ObjectView>, ErrorView>(
                objects_view(objects@),
            ),
            Err(error) => encode_all(values_view(values@)) == Err::<Seq<ObjectView>, ErrorView>(
                error@,
            ),
        },
{
    let ghost views = values_view(values@);
    let mut objects: Vec<DynamicObject> = Vec::with_capacity(values.len());
    let mut i: usize = 0;
    assert(views.subrange(0, 0) =~= Seq::<ValueView>::empty());
    assert(objects_view(objects@) =~= Seq::<ObjectView>::empty());
    while i < values.len()
        invariant
            i <= values.len(),
            views == values_view(values@),
            encode_all(views.subrange(0, i as int)) == Ok::<Seq<ObjectView>, ErrorView>(
                objects_view(objects@),
            ),
        decreases values.len() - i,
    {
        proof {
            lemma_encode_all_step(views, i as int);
        }
        match encode(&values[i]) {
            Ok(object) => {
                let ghost before = objects_view(objects@);
                objects.push(object);
                assert(objects_view(objects@) =~= before.push(object@));
            },
            Err(error) => {
                proof {
                    lemma_encode_all_prefix_error(views, i as int + 1);
                }
                return Err(error);
            },
        }
        i += 1;
    }
    assert(views.subrange(0, i as int) =~= views);
    Ok(objects)
}

} // verus!
