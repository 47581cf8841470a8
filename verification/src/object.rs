use crate::binary_subtype::BinarySubtype;
use crate::value::{copy_bytes, Document, DocumentView};
use vstd::prelude::*;

verus! {

/// The host's wrapper for the `undefined` value.
#[derive(Clone, Copy, Debug, PartialEq, Eq)]
pub struct Undefined;

/// The host's wrapper for the key that sorts after every other value.
#[derive(Clone, Copy, Debug, PartialEq, Eq)]
pub struct MaxKey;

/// The host's wrapper for the key that sorts before every other value.
#[derive(Clone, Copy, Debug, PartialEq, Eq)]
pub struct MinKey;

/// The host's wrapper for a symbol.
#[derive(Clone, Debug, PartialEq)]
pub struct Symbol {
    pub symbol: String,
}

/// The host's wrapper for JavaScript code.
#[derive(Clone, Debug, PartialEq)]
pub struct JavaScriptCode {
    pub code: String,
}

/// The host's wrapper for JavaScript code with the document of its scope.
#[derive(Clone, Debug, PartialEq)]
pub struct JavaScriptCodeWithScope {
    pub code: String,
    pub scope: Document,
}

/// The host's wrapper for an internal timestamp: seconds and an ordinal.
#[derive(Clone, Copy, Debug, PartialEq, Eq)]
pub struct Timestamp {
    pub timestamp: u32,
    pub increment: u32,
}

/// The host's wrapper for a regular expression.
#[derive(Clone, Debug, PartialEq)]
pub struct Regex {
    pub pattern: String,
    pub options: String,
}

/// The host's wrapper for binary data.
#[derive(Clone, Debug, PartialEq)]
pub struct Binary {
    pub subtype: BinarySubtype,
    pub bytes: Vec<u8>,
}

/// The host's wrapper for an object id: its twelve raw bytes.
#[derive(Clone, Copy, Debug, PartialEq, Eq)]
pub struct ObjectId {
    pub id: [u8; 12],
}

/// The host's wrapper for a decimal: the sixteen raw bytes of its encoding.
#[derive(Clone, Copy, Debug, PartialEq, Eq)]
pub struct Decimal128 {
    pub bytes: [u8; 16],
}

/// The host's native date-time, held at the precision that the document
/// format keeps: milliseconds since the Unix epoch, in both directions.
#[derive(Clone, Copy, Debug, PartialEq, Eq)]
pub struct NativeDateTime {
    pub millis: i64,
}

/// The mathematical content of a [`DynamicObject`].
pub enum ObjectView {
    Nothing,
    Float(u64),
    Text(Seq<char>),
    List(Seq<ObjectView>),
    Bool(bool),
    Int(i64),
    DateTime(i64),
    Document(DocumentView),
    Symbol(Seq<char>),
    Regex { pattern: Seq<char>, options: Seq<char> },
    JavaScriptCode(Seq<char>),
    JavaScriptCodeWithScope { code: Seq<char>, scope: DocumentView },
    Timestamp { timestamp: u32, increment: u32 },
    Binary { subtype: BinarySubtype, bytes: Seq<u8> },
    ObjectId([u8; 12]),
    Decimal128([u8; 16]),
    Undefined,
    MaxKey,
    MinKey,
    Unrecognized { runtime_type: Seq<char> },
}

/// A value of the host's dynamic object system, as far as the driver reads
/// it: the host's own scalars and sequences, the wrappers that the driver
/// defines, the document container, and, for every other object, the name of
/// its runtime type.
#[derive(Debug, PartialEq)]
pub enum DynamicObject {
    /// The host's absence of a value.
    Nothing,
    /// A floating-point number, as the 64 bits of its IEEE 754 encoding.
    Float(u64),
    Text(String),
    List(Vec<DynamicObject>),
    Bool(bool),
    /// A plain integer of the host.
    Int(i64),
    DateTime(NativeDateTime),
    Document(Document),
    Symbol(Symbol),
    Regex(Regex),
    JavaScriptCode(JavaScriptCode),
    JavaScriptCodeWithScope(JavaScriptCodeWithScope),
    Timestamp(Timestamp),
    Binary(Binary),
    ObjectId(ObjectId),
    Decimal128(Decimal128),
    Undefined(Undefined),
    MaxKey(MaxKey),
    MinKey(MinKey),
    /// An object of a runtime type that the driver does not know.
    Unrecognized { runtime_type: String },
}

/// The contents of a vector of host objects, in order.
pub open spec fn objects_view(items: Seq<DynamicObject>) -> Seq<ObjectView>
    decreases items,
{
    Seq::new(
        items.len(),
        |i: int|
            if 0 <= i < items.len() {
                items[i].view()
            } else {
                ObjectView::Nothing
            },
    )
}

impl View for DynamicObject {
    type V = ObjectView;

    open spec fn view(&self) -> ObjectView
        decreases self,
    {
        match self {
            DynamicObject::Nothing => ObjectView::Nothing,
            DynamicObject::Float(bits) => ObjectView::Float(*bits),
            DynamicObject::Text(text) => ObjectView::Text(text@),
            DynamicObject::List(items) => ObjectView::List(objects_view(items@)),
            DynamicObject::Bool(b) => ObjectView::Bool(*b),
            DynamicObject::Int(v) => ObjectView::Int(*v),
            DynamicObject::DateTime(moment) => ObjectView::DateTime(moment.millis),
            DynamicObject::Document(document) => ObjectView::Document(document@),
            DynamicObject::Symbol(wrapper) => ObjectView::Symbol(wrapper.symbol@),
            DynamicObject::Regex(wrapper) => ObjectView::Regex {
                pattern: wrapper.pattern@,
                options: wrapper.options@,
            },
            DynamicObject::JavaScriptCode(wrapper) => ObjectView::JavaScriptCode(wrapper.code@),
            DynamicObject::JavaScriptCodeWithScope(wrapper) => ObjectView::JavaScriptCodeWithScope {
                code: wrapper.code@,
                scope: wrapper.scope@,
            },
            DynamicObject::Timestamp(wrapper) => ObjectView::Timestamp {
                timestamp: wrapper.timestamp,
                increment: wrapper.increment,
            },
            DynamicObject::Binary(wrapper) => ObjectView::Binary {
                subtype: wrapper.subtype,
                bytes: wrapper.bytes@,
            },
            DynamicObject::ObjectId(wrapper) => ObjectView::ObjectId(wrapper.id),
            DynamicObject::Decimal128(wrapper) => ObjectView::Decimal128(wrapper.bytes),
            DynamicObject::Undefined(_) => ObjectView::Undefined,
            DynamicObject::MaxKey(_) => ObjectView::MaxKey,
            DynamicObject::MinKey(_) => ObjectView::MinKey,
            DynamicObject::Unrecognized { runtime_type } => ObjectView::Unrecognized {
                runtime_type: runtime_type@,
            },
        }
    }
}

impl Clone for DynamicObject {
    /// A deep copy: it shares nothing with the value that it was made from.
    fn clone(&self) -> (copy: DynamicObject)
        ensures
            copy@ == self@,
        decreases self,
    {
        match self {
            DynamicObject::Nothing => DynamicObject::Nothing,
            DynamicObject::Float(bits) => DynamicObject::Float(*bits),
            DynamicObject::Text(text) => DynamicObject::Text(text.clone()),
            DynamicObject::List(items) => {
                let mut copies: Vec<DynamicObject> = Vec::with_capacity(items.len());
                let mut i: usize = 0;
                while i < items.len()
                    invariant
                        i <= items.len(),
                        copies.len() == i,
                        forall|k: int| 0 <= k < i ==> copies[k]@ == items[k]@,
                        *self == DynamicObject::List(*items),
                    decreases items.len() - i,
                {
                    proof {
                        assert(decreases_to!(*self => self->List_0));
                        assert(decreases_to!(*items => items@));
                        assert(decreases_to!(items@ => items@[i as int]));
                    }
                    let item = items[i].clone();
                    copies.push(item);
                    i += 1;
                }
                proof {
                    assert(objects_view(copies@) =~= objects_view(items@));
                }
                DynamicObject::List(copies)
            },
            DynamicObject::Bool(b) => DynamicObject::Bool(*b),
            DynamicObject::Int(v) => DynamicObject::Int(*v),
            DynamicObject::DateTime(moment) => DynamicObject::DateTime(
                NativeDateTime { millis: moment.millis },
            ),
            DynamicObject::Document(document) => DynamicObject::Document(document.copy()),
            DynamicObject::Symbol(wrapper) => DynamicObject::Symbol(
                Symbol { symbol: wrapper.symbol.clone() },
            ),
            DynamicObject::Regex(wrapper) => DynamicObject::Regex(
                Regex { pattern: wrapper.pattern.clone(), options: wrapper.options.clone() },
            ),
            DynamicObject::JavaScriptCode(wrapper) => DynamicObject::JavaScriptCode(
                JavaScriptCode { code: wrapper.code.clone() },
            ),
            DynamicObject::JavaScriptCodeWithScope(wrapper) => DynamicObject::JavaScriptCodeWithScope(
                JavaScriptCodeWithScope { code: wrapper.code.clone(), scope: wrapper.scope.copy() },
            ),
            DynamicObject::Timestamp(wrapper) => DynamicObject::Timestamp(
                Timestamp { timestamp: wrapper.timestamp, increment: wrapper.increment },
            ),
            DynamicObject::Binary(wrapper) => DynamicObject::Binary(
                Binary { subtype: wrapper.subtype, bytes: copy_bytes(&wrapper.bytes) },
            ),
            DynamicObject::ObjectId(wrapper) => DynamicObject::ObjectId(ObjectId { id: wrapper.id }),
            DynamicObject::Decimal128(wrapper) => DynamicObject::Decimal128(
                Decimal128 { bytes: wrapper.bytes },
            ),
            DynamicObject::Undefined(_) => DynamicObject::Undefined(Undefined),
            DynamicObject::MaxKey(_) => DynamicObject::MaxKey(MaxKey),
            DynamicObject::MinKey(_) => DynamicObject::MinKey(MinKey),
            DynamicObject::Unrecognized { runtime_type } => DynamicObject::Unrecognized {
                runtime_type: runtime_type.clone(),
            },
        }
    }
}

} // verus!
