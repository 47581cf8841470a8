use crate::binary_subtype::BinarySubtypeKind;
use vstd::prelude::*;

verus! {

/// The mathematical content of a document: its entries in insertion order.
pub type DocumentView = Seq<(Seq<char>, ValueView)>;

/// The mathematical content of a [`Value`].
pub enum ValueView {
    Double(u64),
    String(Seq<char>),
    Array(Seq<ValueView>),
    Document(DocumentView),
    Boolean(bool),
    Null,
    Regex { pattern: Seq<char>, options: Seq<char> },
    JsCode(Seq<char>),
    JsCodeWithScope { code: Seq<char>, scope: DocumentView },
    Int32(i32),
    Int64(i64),
    Timestamp { seconds: u32, ordinal: u32 },
    Binary { subtype: BinarySubtypeKind, bytes: Seq<u8> },
    ObjectId([u8; 12]),
    DateTime(i64),
    Decimal128([u8; 16]),
    Symbol(Seq<char>),
    Undefined,
    MaxKey,
    MinKey,
    DbPointer,
}

/// One value of the binary document format.
///
/// A double is held as the 64 bits of its IEEE 754 encoding, a date-time as
/// milliseconds since the Unix epoch, an object id and a decimal as their raw
/// bytes. `DbPointer` stands for the one kind of the format that has no form
/// on the host's side: it can be carried, and every conversion refuses it.
#[derive(Debug, PartialEq)]
pub enum Value {
    Double(u64),
    String(String),
    Array(Vec<Value>),
    Document(Document),
    Boolean(bool),
    Null,
    Regex { pattern: String, options: String },
    JsCode(String),
    JsCodeWithScope { code: String, scope: Document },
    Int32(i32),
    Int64(i64),
    Timestamp { seconds: u32, ordinal: u32 },
    Binary { subtype: BinarySubtypeKind, bytes: Vec<u8> },
    ObjectId([u8; 12]),
    DateTime(i64),
    Decimal128([u8; 16]),
    Symbol(String),
    Undefined,
    MaxKey,
    MinKey,
    DbPointer,
}

/// An ordered mapping from unique text keys to values.
#[derive(Debug, PartialEq)]
pub struct Document {
    entries: Vec<(String, Value)>,
}

/// No key occurs twice among the entries.
pub open spec fn keys_unique(entries: DocumentView) -> bool {
    forall|i: int, j: int|
        0 <= i < entries.len() && 0 <= j < entries.len() && i != j ==> entries[i].0 != entries[j].0
}

/// Some entry has this key.
pub open spec fn has_key(entries: DocumentView, key: Seq<char>) -> bool {
    exists|i: int| 0 <= i < entries.len() && entries[i].0 == key
}

/// The position of an entry with this key, where there is one.
pub open spec fn index_of_key(entries: DocumentView, key: Seq<char>) -> int {
    choose|i: int| 0 <= i < entries.len() && entries[i].0 == key
}

/// The value stored under a key that is present.
pub open spec fn value_of_key(entries: DocumentView, key: Seq<char>) -> ValueView {
    entries[index_of_key(entries, key)].1
}

/// The entries after a write: a present key keeps its position and takes the
/// new value, an absent key is appended.
pub open spec fn with_entry(entries: DocumentView, key: Seq<char>, value: ValueView) -> DocumentView {
    if has_key(entries, key) {
        entries.update(index_of_key(entries, key), (key, value))
    } else {
        entries.push((key, value))
    }
}

/// The entries after a present key is removed: the others keep their order.
pub open spec fn without_key(entries: DocumentView, key: Seq<char>) -> DocumentView {
    entries.remove(index_of_key(entries, key))
}

/// The keys of the entries, in order.
pub open spec fn keys_of(entries: DocumentView) -> Seq<Seq<char>> {
    Seq::new(entries.len(), |i: int| entries[i].0)
}

/// The values of the entries, in order.
pub open spec fn values_of(entries: DocumentView) -> Seq<ValueView> {
    Seq::new(entries.len(), |i: int| entries[i].1)
}

/// The contents of a vector of values, in order.
pub open spec fn values_view(items: Seq<Value>) -> Seq<ValueView>
    decreases items,
{
    Seq::new(
        items.len(),
        |i: int|
            if 0 <= i < items.len() {
                items[i].view()
            } else {
                ValueView::Null
            },
    )
}

/// The contents of a vector of entries, in order.
pub open spec fn entries_view(entries: Seq<(String, Value)>) -> DocumentView
    decreases entries,
{
    Seq::new(
        entries.len(),
        |i: int|
            if 0 <= i < entries.len() {
                (entries[i].0@, entries[i].1.view())
            } else {
                (Seq::empty(), ValueView::Null)
            },
    )
}

/// The contents of a vector of texts, in order.
pub open spec fn texts_view(items: Seq<String>) -> Seq<Seq<char>> {
    Seq::new(items.len(), |i: int| items[i]@)
}

/// Whether a value can be shown to the host: neither it nor anything inside
/// it, at any depth, is of the kind that has no form there.
pub open spec fn supported(value: ValueView) -> bool
    decreases value,
{
    match value {
        ValueView::DbPointer => false,
        ValueView::Array(items) => all_supported(items),
        ValueView::Document(entries) => entries_supported(entries),
        ValueView::JsCodeWithScope { scope, .. } => entries_supported(scope),
        _ => true,
    }
}

/// Every item of the sequence is supported.
pub open spec fn all_supported(items: Seq<ValueView>) -> bool
    decreases items,
{
    forall|i: int| 0 <= i < items.len() ==> supported(#[trigger] items[i])
}

/// The value of every entry is supported.
pub open spec fn entries_supported(entries: DocumentView) -> bool
    decreases entries,
{
    forall|i: int| 0 <= i < entries.len() ==> supported((#[trigger] entries[i]).1)
}

impl View for Value {
    type V = ValueView;

    open spec fn view(&self) -> ValueView
        decreases self,
    {
        match self {
            Value::Double(bits) => ValueView::Double(*bits),
            Value::String(text) => ValueView::String(text@),
            Value::Array(items) => ValueView::Array(values_view(items@)),
            Value::Document(document) => ValueView::Document(document.view()),
            Value::Boolean(b) => ValueView::Boolean(*b),
            Value::Null => ValueView::Null,
            Value::Regex { pattern, options } => ValueView::Regex {
                pattern: pattern@,
                options: options@,
            },
            Value::JsCode(code) => ValueView::JsCode(code@),
            Value::JsCodeWithScope { code, scope } => ValueView::JsCodeWithScope {
                code: code@,
                scope: scope.view(),
            },
            Value::Int32(v) => ValueView::Int32(*v),
            Value::Int64(v) => ValueView::Int64(*v),
            Value::Timestamp { seconds, ordinal } => ValueView::Timestamp {
                seconds: *seconds,
                ordinal: *ordinal,
            },
            Value::Binary { subtype, bytes } => ValueView::Binary { subtype: *subtype, bytes: bytes@ },
            Value::ObjectId(id) => ValueView::ObjectId(*id),
            Value::DateTime(millis) => ValueView::DateTime(*millis),
            Value::Decimal128(bytes) => ValueView::Decimal128(*bytes),
            Value::Symbol(symbol) => ValueView::Symbol(symbol@),
            Value::Undefined => ValueView::Undefined,
            Value::MaxKey => ValueView::MaxKey,
            Value::MinKey => ValueView::MinKey,
            Value::DbPointer => ValueView::DbPointer,
        }
    }
}

impl View for Document {
    type V = DocumentView;

    closed spec fn view(&self) -> DocumentView
        decreases self,
    {
        entries_view(self.entries@)
    }
}

/// Copies a vector of bytes.
pub fn copy_bytes(bytes: &Vec<u8>) -> (copy: Vec<u8>)
    ensures
        copy@ == bytes@,
{
    let mut copy: Vec<u8> = Vec::with_capacity(bytes.len());
    let mut i: usize = 0;
    while i < bytes.len()
        invariant
            i <= bytes.len(),
            copy@ == bytes@.subrange(0, i as int),
        decreases bytes.len() - i,
    {
        copy.push(bytes[i]);
        i += 1;
        assert(copy@ =~= bytes@.subrange(0, i as int));
    }
    assert(copy@ =~= bytes@);
    copy
}

impl Clone for Value {
    /// A deep copy: it shares nothing with the value that it was made from.
    fn clone(&self) -> (copy: Value)
        ensures
            copy@ == self@,
        decreases self,
    {
        match self {
            Value::Double(bits) => Value::Double(*bits),
            Value::String(text) => Value::String(text.clone()),
            Value::Array(items) => {
                let mut copies: Vec<Value> = Vec::with_capacity(items.len());
                let mut i: usize = 0;
                while i < items.len()
                    invariant
                        i <= items.len(),
                        copies.len() == i,
                        forall|k: int| 0 <= k < i ==> copies[k]@ == items[k]@,
                        *self == Value::Array(*items),
                    decreases items.len() - i,
                {
                    proof {
                        assert(decreases_to!(*self => self->Array_0));
                        assert(decreases_to!(*items => items@));
                        assert(decreases_to!(items@ => items@[i as int]));
                    }
                    let item = items[i].clone();
                    copies.push(item);
                    i += 1;
                }
                proof {
                    assert(values_view(copies@) =~= values_view(items@));
                }
                Value::Array(copies)
            },
            Value::Document(document) => Value::Document(document.clone()),
            Value::Boolean(b) => Value::Boolean(*b),
            Value::Null => Value::Null,
            Value::Regex { pattern, options } => Value::Regex {
                pattern: pattern.clone(),
                options: options.clone(),
            },
            Value::JsCode(code) => Value::JsCode(code.clone()),
            Value::JsCodeWithScope { code, scope } => Value::JsCodeWithScope {
                code: code.clone(),
                scope: scope.clone(),
            },
            Value::Int32(v) => Value::Int32(*v),
            Value::Int64(v) => Value::Int64(*v),
            Value::Timestamp { seconds, ordinal } => Value::Timestamp {
                seconds: *seconds,
                ordinal: *ordinal,
            },
            Value::Binary { subtype, bytes } => Value::Binary {
                subtype: *subtype,
                bytes: copy_bytes(bytes),
            },
            Value::ObjectId(id) => Value::ObjectId(*id),
            Value::DateTime(millis) => Value::DateTime(*millis),
            Value::Decimal128(bytes) => Value::Decimal128(*bytes),
            Value::Symbol(symbol) => Value::Symbol(symbol.clone()),
            Value::Undefined => Value::Undefined,
            Value::MaxKey => Value::MaxKey,
            Value::MinKey => Value::MinKey,
            Value::DbPointer => Value::DbPointer,
        }
    }
}

impl Clone for Document {
    /// A deep copy: it shares nothing with the value that it was made from.
    fn clone(&self) -> (copy: Document)
        ensures
            copy@ == self@,
        decreases self,
    {
        proof {
            use_type_invariant(self);
        }
        let mut entries: Vec<(String, Value)> = Vec::with_capacity(self.entries.len());
        let mut i: usize = 0;
        while i < self.entries.len()
            invariant
                i <= self.entries.len(),
                entries.len() == i,
                forall|k: int|
                    0 <= k < i ==> entries[k].0@ == self.entries[k].0@ && entries[k].1@
                        == self.entries[k].1@,
            decreases self.entries.len() - i,
        {
            let key = self.entries[i].0.clone();
            let value = self.entries[i].1.clone();
            entries.push((key, value));
            i += 1;
        }
        assert(entries_view(entries@) =~= entries_view(self.entries@));
        Document { entries }
    }
}

impl Value {
    /// Whether the value can be shown to the host.
    pub fn is_supported(&self) -> (yes: bool)
        ensures
            yes == supported(self@),
        decreases self,
    {
        match self {
            Value::DbPointer => false,
            Value::Array(items) => {
                let mut i: usize = 0;
                while i < items.len()
                    invariant
                        i <= items.len(),
                        *self == Value::Array(*items),
                        forall|k: int| 0 <= k < i ==> supported(#[trigger] values_view(items@)[k]),
                    decreases items.len() - i,
                {
                    proof {
                        assert(decreases_to!(*self => self->Array_0));
                        assert(decreases_to!(*items => items@));
                        assert(decreases_to!(items@ => items@[i as int]));
                    }
                    if !items[i].is_supported() {
                        assert(!supported(values_view(items@)[i as int]));
                        assert(!all_supported(values_view(items@)));
                        return false;
                    }
                    i += 1;
                }
                assert(all_supported(values_view(items@)));
                true
            },
            Value::Document(document) => document.is_supported(),
            Value::JsCodeWithScope { scope, .. } => scope.is_supported(),
            _ => true,
        }
    }
}

impl Document {
    /// Whether every value of the document can be shown to the host.
    pub fn is_supported(&self) -> (yes: bool)
        ensures
            yes == entries_supported(self@),
        decreases self,
    {
        let mut i: usize = 0;
        while i < self.entries.len()
            invariant
                i <= self.entries.len(),
                forall|k: int| 0 <= k < i ==> supported((#[trigger] self@[k]).1),
            decreases self.entries.len() - i,
        {
            proof {
                assert(decreases_to!(*self => self.entries));
                assert(decreases_to!(self.entries => self.entries@));
                assert(decreases_to!(self.entries@ => self.entries@[i as int]));
                assert(decreases_to!(self.entries@[i as int] => self.entries@[i as int].1));
            }
            if !self.entries[i].1.is_supported() {
                assert(!supported(self@[i as int].1));
                return false;
            }
            i += 1;
        }
        true
    }

    #[verifier::type_invariant]
    spec fn inv(&self) -> bool {
        keys_unique(self@)
    }

    /// A document without entries.
    pub fn empty() -> (document: Document)
        ensures
            document@ == Seq::<(Seq<char>, ValueView)>::empty(),
    {
        let document = Document { entries: Vec::new() };
        assert(document@ =~= Seq::<(Seq<char>, ValueView)>::empty());
        document
    }

    /// The number of entries.
    pub fn len(&self) -> (n: usize)
        ensures
            n == self@.len(),
            keys_unique(self@),
    {
        proof {
            use_type_invariant(self);
        }
        self.entries.len()
    }

    /// Whether the document has no entries.
    pub fn is_empty(&self) -> (b: bool)
        ensures
            b == (self@.len() == 0),
    {
        self.entries.len() == 0
    }

    /// Removes every entry.
    pub fn clear(&mut self)
        ensures
            final(self)@ == Seq::<(Seq<char>, ValueView)>::empty(),
    {
        self.entries = Vec::new();
        assert(self@ =~= Seq::<(Seq<char>, ValueView)>::empty());
    }

    /// A deep copy of the document.
    pub fn copy(&self) -> (copy: Document)
        ensures
            copy@ == self@,
    {
        self.clone()
    }

    /// The position of the entry with this key.
    pub fn position(&self, key: &String) -> (found: Option<usize>)
        ensures
            found is Some == has_key(self@, key@),
            found is Some ==> found->0 == index_of_key(self@, key@) && 0 <= found->0 < self@.len(),
    {
        proof {
            use_type_invariant(self);
        }
        let mut i: usize = 0;
        while i < self.entries.len()
            invariant
                i <= self.entries.len(),
                keys_unique(self@),
                forall|k: int| 0 <= k < i ==> self@[k].0 != key@,
            decreases self.entries.len() - i,
        {
            if self.entries[i].0 == *key {
                assert(self@[i as int].0 == key@);
                let ghost chosen = index_of_key(self@, key@);
                assert(self@[chosen].0 == key@);
                return Some(i);
            }
            i += 1;
        }
        None
    }

    /// The key and the value at a position.
    pub fn entry(&self, index: usize) -> (entry: (&String, &Value))
        requires
            index < self@.len(),
        ensures
            entry.0@ == self@[index as int].0,
            entry.1@ == self@[index as int].1,
    {
        (&self.entries[index].0, &self.entries[index].1)
    }

    /// The value stored under a key.
    pub fn lookup(&self, key: &String) -> (found: Option<&Value>)
        ensures
            found is Some == has_key(self@, key@),
            found is Some ==> found->0@ == value_of_key(self@, key@),
    {
        match self.position(key) {
            Some(i) => Some(&self.entries[i].1),
            None => None,
        }
    }

    /// Whether a key is present.
    pub fn contains_key(&self, key: &String) -> (present: bool)
        ensures
            present == has_key(self@, key@),
    {
        self.position(key).is_some()
    }

    /// Stores a value under a key and returns the value that it replaces. A
    /// present key keeps its position; an absent key becomes the last entry.
    pub fn insert(&mut self, key: String, value: Value) -> (replaced: Option<Value>)
        ensures
            final(self)@ == with_entry(old(self)@, key@, value@),
            replaced is Some == has_key(old(self)@, key@),
            replaced is Some ==> replaced->0@ == value_of_key(old(self)@, key@),
    {
        proof {
            use_type_invariant(&*self);
        }
        let found = self.position(&key);
        let ghost before = self@;
        let mut entries: Vec<(String, Value)> = Vec::new();
        core::mem::swap(&mut self.entries, &mut entries);
        match found {
            Some(i) => {
                let mut entry = (key, value);
                core::mem::swap(&mut entries[i], &mut entry);
                assert(entries_view(entries@) =~= before.update(i as int, (key@, value@)));
                self.entries = entries;
                Some(entry.1)
            },
            None => {
                entries.push((key, value));
                assert(entries_view(entries@) =~= before.push((key@, value@)));
                self.entries = entries;
                None
            },
        }
    }

    /// Removes a key and returns its value. The other entries keep their order.
    pub fn remove(&mut self, key: &String) -> (removed: Option<Value>)
        ensures
            removed is Some == has_key(old(self)@, key@),
            removed is Some ==> removed->0@ == value_of_key(old(self)@, key@) && final(self)@
                == without_key(old(self)@, key@),
            removed is None ==> final(self)@ == old(self)@,
    {
        proof {
            use_type_invariant(&*self);
        }
        match self.position(key) {
            Some(i) => {
                let ghost before = self@;
                let mut entries: Vec<(String, Value)> = Vec::new();
                core::mem::swap(&mut self.entries, &mut entries);
                let entry = entries.remove(i);
                assert(entries_view(entries@) =~= before.remove(i as int));
                self.entries = entries;
                Some(entry.1)
            },
            None => None,
        }
    }

    /// The keys in insertion order, as a snapshot.
    pub fn keys(&self) -> (keys: Vec<String>)
        ensures
            texts_view(keys@) == keys_of(self@),
    {
        let mut keys: Vec<String> = Vec::with_capacity(self.entries.len());
        let mut i: usize = 0;
        while i < self.entries.len()
            invariant
                i <= self.entries.len(),
                keys.len() == i,
                forall|k: int| 0 <= k < i ==> keys[k]@ == self@[k].0,
            decreases self.entries.len() - i,
        {
            keys.push(self.entries[i].0.clone());
            i += 1;
        }
        assert(texts_view(keys@) =~= keys_of(self@));
        keys
    }
}

} // verus!
