use crate::convert::{
    decode, decode_spec, encode, encode_all, encode_spec, lemma_encode_all_prefix_error,
    lemma_encode_all_step,
};
use crate::error::{result_view, DriverError, ErrorView};
use crate::object::{DynamicObject, ObjectView};
use crate::value::{
    has_key, index_of_key, keys_of, keys_unique, value_of_key, values_of, with_entry, without_key,
    Document, DocumentView, ValueView,
};
use vstd::prelude::*;

verus! {

/// The contents of a vector of pairs of host objects, in order.
pub open spec fn pairs_view(pairs: Seq<(DynamicObject, DynamicObject)>) -> Seq<
    (ObjectView, ObjectView),
> {
    Seq::new(pairs.len(), |i: int| (pairs[i].0@, pairs[i].1@))
}

/// The pairs that an optional mapping holds: none where it is missing.
pub open spec fn optional_pairs(pairs: Option<Vec<(DynamicObject, DynamicObject)>>) -> Seq<
    (ObjectView, ObjectView),
> {
    match pairs {
        Some(pairs) => pairs_view(pairs@),
        None => Seq::empty(),
    }
}

/// The view of the result of a read that may find nothing.
pub open spec fn found_view(result: Result<Option<DynamicObject>, DriverError>) -> Result<
    Option<ObjectView>,
    ErrorView,
> {
    match result {
        Ok(Some(object)) => Ok(Some(object@)),
        Ok(None) => Ok(None),
        Err(error) => Err(error@),
    }
}

/// What a non-throwing read gives: for a text key, the host's form of the
/// value stored under it, or nothing where the key is absent; for any other
/// key, `InvalidKeyType`.
pub open spec fn get_spec(entries: DocumentView, key: ObjectView) -> Result<
    Option<ObjectView>,
    ErrorView,
> {
    match key {
        ObjectView::Text(text) => if has_key(entries, text) {
            match encode_spec(value_of_key(entries, text)) {
                Ok(object) => Ok(Some(object)),
                Err(error) => Err(error),
            }
        } else {
            Ok(None)
        },
        _ => Err(ErrorView::InvalidKeyType),
    }
}

/// What a subscript access gives: as a read, but an absent key is the
/// failure `KeyNotFound`, which names the key.
pub open spec fn getitem_spec(entries: DocumentView, key: ObjectView) -> Result<
    ObjectView,
    ErrorView,
> {
    match key {
        ObjectView::Text(text) => if has_key(entries, text) {
            encode_spec(value_of_key(entries, text))
        } else {
            Err(ErrorView::KeyNotFound(text))
        },
        _ => Err(ErrorView::InvalidKeyType),
    }
}

/// What a write leaves: the key is checked first, then the value is read;
/// either failure leaves no trace.
pub open spec fn set_spec(entries: DocumentView, key: ObjectView, value: ObjectView) -> Result<
    DocumentView,
    ErrorView,
> {
    match key {
        ObjectView::Text(text) => match decode_spec(value) {
            Ok(decoded) => Ok(with_entry(entries, text, decoded)),
            Err(error) => Err(error),
        },
        _ => Err(ErrorView::InvalidKeyType),
    }
}

/// What a deletion leaves: an absent key is the failure `KeyNotFound`.
pub open spec fn del_spec(entries: DocumentView, key: ObjectView) -> Result<DocumentView, ErrorView> {
    match key {
        ObjectView::Text(text) => if has_key(entries, text) {
            Ok(without_key(entries, text))
        } else {
            Err(ErrorView::KeyNotFound(text))
        },
        _ => Err(ErrorView::InvalidKeyType),
    }
}

/// What a membership test gives.
pub open spec fn contains_spec(entries: DocumentView, key: ObjectView) -> Result<bool, ErrorView> {
    match key {
        ObjectView::Text(text) => Ok(has_key(entries, text)),
        _ => Err(ErrorView::InvalidKeyType),
    }
}

/// What writing the pairs one after the other leaves, or the failure of the
/// first pair that cannot be written.
pub open spec fn build_spec(entries: DocumentView, pairs: Seq<(ObjectView, ObjectView)>) -> Result<
    DocumentView,
    ErrorView,
>
    decreases pairs.len(),
{
    if pairs.len() == 0 {
        Ok(entries)
    } else {
        match build_spec(entries, pairs.drop_last()) {
            Err(error) => Err(error),
            Ok(built) => set_spec(built, pairs.last().0, pairs.last().1),
        }
    }
}

/// One more pair extends what the pairs before it have built.
proof fn lemma_build_step(entries: DocumentView, pairs: Seq<(ObjectView, ObjectView)>, n: int)
    requires
        0 <= n < pairs.len(),
    ensures
        build_spec(entries, pairs.subrange(0, n + 1)) == match build_spec(
            entries,
            pairs.subrange(0, n),
        ) {
            Err(error) => Err(error),
            Ok(built) => set_spec(built, pairs[n].0, pairs[n].1),
        },
{
    let longer = pairs.subrange(0, n + 1);
    assert(longer.drop_last() =~= pairs.subrange(0, n));
    assert(longer.last() == pairs[n]);
}

/// Once the pairs up to some place have failed, so have all of them.
proof fn lemma_build_prefix_error(entries: DocumentView, pairs: Seq<(ObjectView, ObjectView)>, n: int)
    requires
        0 <= n <= pairs.len(),
        build_spec(entries, pairs.subrange(0, n)) is Err,
    ensures
        build_spec(entries, pairs) == build_spec(entries, pairs.subrange(0, n)),
    decreases pairs.len() - n,
{
    if n == pairs.len() {
        assert(pairs.subrange(0, n) =~= pairs);
    } else {
        lemma_build_step(entries, pairs, n);
        lemma_build_prefix_error(entries, pairs, n + 1);
    }
}

/// Building from two lists in turn is building from the one list that holds
/// the first and then the second.
pub proof fn lemma_build_concat(
    entries: DocumentView,
    first: Seq<(ObjectView, ObjectView)>,
    second: Seq<(ObjectView, ObjectView)>,
)
    ensures
        build_spec(entries, first + second) == match build_spec(entries, first) {
            Err(error) => Err(error),
            Ok(built) => build_spec(built, second),
        },
    decreases second.len(),
{
    if second.len() == 0 {
        assert(first + second =~= first);
    } else {
        lemma_build_concat(entries, first, second.drop_last());
        assert((first + second).drop_last() =~= first + second.drop_last());
        assert((first + second).last() == second.last());
    }
}

/// Key-type enforcement: with a key that is not text, a read, a subscript
/// access, a write, a deletion and a membership test all fail with
/// `InvalidKeyType`, whatever the document and the value are.
pub proof fn lemma_key_type_enforced(entries: DocumentView, key: ObjectView, value: ObjectView)
    requires
        !(key is Text),
    ensures
        get_spec(entries, key) == Err::<Option<ObjectView>, ErrorView>(ErrorView::InvalidKeyType),
        getitem_spec(entries, key) == Err::<ObjectView, ErrorView>(ErrorView::InvalidKeyType),
        set_spec(entries, key, value) == Err::<DocumentView, ErrorView>(ErrorView::InvalidKeyType),
        del_spec(entries, key) == Err::<DocumentView, ErrorView>(ErrorView::InvalidKeyType),
        contains_spec(entries, key) == Err::<bool, ErrorView>(ErrorView::InvalidKeyType),
{
}

/// Deletion of an absent key fails with `KeyNotFound`, which names the key;
/// so does every deletion from the empty document.
pub proof fn lemma_delete_absent(entries: DocumentView, key: Seq<char>)
    ensures
        !has_key(entries, key) ==> del_spec(entries, ObjectView::Text(key)) == Err::<
            DocumentView,
            ErrorView,
        >(ErrorView::KeyNotFound(key)),
        del_spec(Seq::empty(), ObjectView::Text(key)) == Err::<DocumentView, ErrorView>(
            ErrorView::KeyNotFound(key),
        ),
{
    assert(!has_key(Seq::<(Seq<char>, ValueView)>::empty(), key));
}

/// Order preservation on writes: writing under a key that is present leaves
/// every key at its position, and writing under an absent key puts it after
/// all others. Either way the keys stay unique, and the key then holds the
/// value that was written.
pub proof fn lemma_write_keeps_order(entries: DocumentView, key: Seq<char>, value: ValueView)
    requires
        keys_unique(entries),
    ensures
        has_key(entries, key) ==> keys_of(with_entry(entries, key, value)) == keys_of(entries),
        !has_key(entries, key) ==> keys_of(with_entry(entries, key, value)) == keys_of(
            entries,
        ).push(key),
        keys_unique(with_entry(entries, key, value)),
        has_key(with_entry(entries, key, value), key),
        value_of_key(with_entry(entries, key, value), key) == value,
{
    let written = with_entry(entries, key, value);
    if has_key(entries, key) {
        let i = index_of_key(entries, key);
        assert(keys_of(written) =~= keys_of(entries));
        assert(written[i].0 == key);
    } else {
        assert(keys_of(written) =~= keys_of(entries).push(key));
        assert(written[written.len() - 1].0 == key);
    }
    let j = index_of_key(written, key);
    assert(written[j].0 == key);
}

/// A write leaves every other key with the value that it had.
pub proof fn lemma_write_keeps_others(
    entries: DocumentView,
    key: Seq<char>,
    value: ValueView,
    other: Seq<char>,
)
    requires
        keys_unique(entries),
        other != key,
    ensures
        has_key(with_entry(entries, key, value), other) == has_key(entries, other),
        has_key(entries, other) ==> value_of_key(with_entry(entries, key, value), other)
            == value_of_key(entries, other),
{
    let written = with_entry(entries, key, value);
    lemma_write_keeps_order(entries, key, value);
    if has_key(entries, other) {
        let i = index_of_key(entries, other);
        assert(written[i] == entries[i]);
        let j = index_of_key(written, other);
        assert(written[j].0 == other);
        assert(written[i].0 == other);
    }
    if has_key(written, other) {
        let j = index_of_key(written, other);
        if j < entries.len() {
            assert(entries[j].0 == other);
        }
    }
}

/// Order preservation on deletion: removing a present key leaves the other
/// keys in the order that they had, and the key is then absent.
pub proof fn lemma_delete_keeps_order(entries: DocumentView, key: Seq<char>)
    requires
        keys_unique(entries),
        has_key(entries, key),
    ensures
        keys_of(without_key(entries, key)) == keys_of(entries).remove(index_of_key(entries, key)),
        without_key(entries, key).len() == entries.len() - 1,
        keys_unique(without_key(entries, key)),
        !has_key(without_key(entries, key), key),
{
    let i = index_of_key(entries, key);
    let rest = without_key(entries, key);
    assert(keys_of(rest) =~= keys_of(entries).remove(i));
    assert forall|a: int, b: int| 0 <= a < rest.len() && 0 <= b < rest.len() && a != b implies rest[a].0
        != rest[b].0 by {
        let a0 = if a < i { a } else { a + 1 };
        let b0 = if b < i { b } else { b + 1 };
        assert(rest[a] == entries[a0]);
        assert(rest[b] == entries[b0]);
    }
    assert forall|a: int| 0 <= a < rest.len() implies rest[a].0 != key by {
        let a0 = if a < i { a } else { a + 1 };
        assert(rest[a] == entries[a0]);
    }
}

/// A value that was written can be read: a write of a host object under a
/// text key, followed by a read of that key, gives the form of the value
/// that the object stands for.
pub proof fn lemma_read_after_write(entries: DocumentView, key: Seq<char>, value: ObjectView)
    requires
        keys_unique(entries),
        decode_spec(value) is Ok,
    ensures
        set_spec(entries, ObjectView::Text(key), value) is Ok,
        getitem_spec(set_spec(entries, ObjectView::Text(key), value)->Ok_0, ObjectView::Text(key))
            == encode_spec(decode_spec(value)->Ok_0),
{
    lemma_write_keeps_order(entries, key, decode_spec(value)->Ok_0);
}

/// Checks that a key is text, as every document key must be.
pub fn key_is_string(key: &DynamicObject) -> (result: Result<(), DriverError>)
    ensures
        result is Ok <==> key@ is Text,
        result is Err ==> result->Err_0 == DriverError::InvalidKeyType,
{
    match key {
        DynamicObject::Text(_) => Ok(()),
        _ => Err(DriverError::InvalidKeyType),
    }
}

/// Writes the pairs into the document one after the other.
fn set_all(document: Document, pairs: &Vec<(DynamicObject, DynamicObject)>) -> (result: Result<
    Document,
    DriverError,
>)
    ensures
        result_view(result) == build_spec(document@, pairs_view(pairs@)),
{
    let ghost start = document@;
    let ghost views = pairs_view(pairs@);
    let mut built = document;
    let mut i: usize = 0;
    assert(views.subrange(0, 0) =~= Seq::<(ObjectView, ObjectView)>::empty());
    while i < pairs.len()
        invariant
            i <= pairs.len(),
            start == document@,
            views == pairs_view(pairs@),
            build_spec(start, views.subrange(0, i as int)) == Ok::<DocumentView, ErrorView>(built@),
        decreases pairs.len() - i,
    {
        proof {
            lemma_build_step(start, views, i as int);
            assert(views[i as int] == (pairs[i as int].0@, pairs[i as int].1@));
        }
        match built.set(&pairs[i].0, &pairs[i].1) {
            Ok(_) => {},
            Err(error) => {
                proof {
                    lemma_build_prefix_error(start, views, i as int + 1);
                }
                return Err(error);
            },
        }
        i += 1;
    }
    assert(views.subrange(0, i as int) =~= views);
    Ok(built)
}

impl Document {
    /// Builds a document from a mapping and from keyword entries, written in
    /// that order, each entry as `set` writes it. One entry that cannot be
    /// written fails the whole construction: no document is returned then.
    pub fn new(
        dict: Option<Vec<(DynamicObject, DynamicObject)>>,
        kwargs: Option<Vec<(DynamicObject, DynamicObject)>>,
    ) -> (result: Result<Document, DriverError>)
        ensures
            result_view(result) == build_spec(
                Seq::empty(),
                optional_pairs(dict) + optional_pairs(kwargs),
            ),
    {
        proof {
            lemma_build_concat(Seq::empty(), optional_pairs(dict), optional_pairs(kwargs));
        }
        let document = Document::empty();
        let document = match &dict {
            Some(pairs) => match set_all(document, pairs) {
                Ok(built) => built,
                Err(error) => {
                    return Err(error);
                },
            },
            None => document,
        };
        match &kwargs {
            Some(pairs) => set_all(document, pairs),
            None => Ok(document),
        }
    }

    /// The number of entries.
    pub fn __len__(&self) -> (n: usize)
        ensures
            n == self@.len(),
    {
        self.len()
    }

    /// Whether a key is present. A key that is not text is refused.
    pub fn contains(&self, key: &DynamicObject) -> (result: Result<bool, DriverError>)
        ensures
            match result {
                Ok(present) => contains_spec(self@, key@) == Ok::<bool, ErrorView>(present),
                Err(error) => contains_spec(self@, key@) == Err::<bool, ErrorView>(error@),
            },
    {
        match key {
            DynamicObject::Text(text) => Ok(self.contains_key(text)),
            _ => Err(DriverError::InvalidKeyType),
        }
    }

    /// Whether a key is present. A key that is not text is refused.
    pub fn __contains__(&self, key: &DynamicObject) -> (result: Result<bool, DriverError>)
        ensures
            match result {
                Ok(present) => contains_spec(self@, key@) == Ok::<bool, ErrorView>(present),
                Err(error) => contains_spec(self@, key@) == Err::<bool, ErrorView>(error@),
            },
    {
        self.contains(key)
    }

    /// Reads the value under a key, in the host's form. An absent key gives
    /// nothing and is no failure.
    pub fn get(&self, key: &DynamicObject) -> (result: Result<Option<DynamicObject>, DriverError>)
        ensures
            found_view(result) == get_spec(self@, key@),
    {
        match key {
            DynamicObject::Text(text) => match self.lookup(text) {
                Some(value) => match encode(value) {
                    Ok(object) => Ok(Some(object)),
                    Err(error) => Err(error),
                },
                None => Ok(None),
            },
            _ => Err(DriverError::InvalidKeyType),
        }
    }

    /// Reads the value under a key, in the host's form. An absent key is the
    /// failure `KeyNotFound`, which names it.
    pub fn __getitem__(&self, key: &DynamicObject) -> (result: Result<DynamicObject, DriverError>)
        ensures
            result_view(result) == getitem_spec(self@, key@),
    {
        match key {
            DynamicObject::Text(text) => match self.lookup(text) {
                Some(value) => encode(value),
                None => Err(DriverError::KeyNotFound(text.clone())),
            },
            _ => Err(DriverError::InvalidKeyType),
        }
    }

    /// Writes the value that a host object stands for under a key. The key
    /// must be text and the object must stand for a value; if either fails,
    /// the document is left as it was.
    pub fn set(&mut self, key: &DynamicObject, value: &DynamicObject) -> (result: Result<
        (),
        DriverError,
    >)
        ensures
            match result {
                Ok(_) => set_spec(old(self)@, key@, value@) == Ok::<DocumentView, ErrorView>(
                    final(self)@,
                ),
                Err(error) => set_spec(old(self)@, key@, value@) == Err::<DocumentView, ErrorView>(
                    error@,
                ) && final(self)@ == old(self)@,
            },
    {
        match key {
            DynamicObject::Text(text) => match decode(value) {
                Ok(decoded) => {
                    self.insert(text.clone(), decoded);
                    Ok(())
                },
                Err(error) => Err(error),
            },
            _ => Err(DriverError::InvalidKeyType),
        }
    }

    /// Writes a value under a key, as `set` does.
    pub fn __setitem__(&mut self, key: &DynamicObject, value: &DynamicObject) -> (result: Result<
        (),
        DriverError,
    >)
        ensures
            match result {
                Ok(_) => set_spec(old(self)@, key@, value@) == Ok::<DocumentView, ErrorView>(
                    final(self)@,
                ),
                Err(error) => set_spec(old(self)@, key@, value@) == Err::<DocumentView, ErrorView>(
                    error@,
                ) && final(self)@ == old(self)@,
            },
    {
        self.set(key, value)
    }

    /// Removes a key. An absent key is the failure `KeyNotFound`, and the
    /// document is left as it was; the entries that stay keep their order.
    pub fn del(&mut self, key: &DynamicObject) -> (result: Result<(), DriverError>)
        ensures
            match result {
                Ok(_) => del_spec(old(self)@, key@) == Ok::<DocumentView, ErrorView>(final(self)@),
                Err(error) => del_spec(old(self)@, key@) == Err::<DocumentView, ErrorView>(error@)
                    && final(self)@ == old(self)@,
            },
    {
        match key {
            DynamicObject::Text(text) => match self.remove(text) {
                Some(_) => Ok(()),
                None => Err(DriverError::KeyNotFound(text.clone())),
            },
            _ => Err(DriverError::InvalidKeyType),
        }
    }

    /// Removes a key, as `del` does.
    pub fn __delitem__(&mut self, key: &DynamicObject) -> (result: Result<(), DriverError>)
        ensures
            match result {
                Ok(_) => del_spec(old(self)@, key@) == Ok::<DocumentView, ErrorView>(final(self)@),
                Err(error) => del_spec(old(self)@, key@) == Err::<DocumentView, ErrorView>(error@)
                    && final(self)@ == old(self)@,
            },
    {
        self.del(key)
    }

    /// A single pass over the entries in insertion order, made over a
    /// snapshot that later writes do not reach.
    pub fn __iter__(&self) -> (iter: DocumentIter)
        ensures
            iter.snapshot() == self@,
            iter.consumed() == 0,
    {
        let snapshot = self.copy();
        let len = snapshot.len();
        DocumentIter { index: 0, len, document_items: snapshot }
    }

    /// A single pass over the entries, as `__iter__` gives it.
    pub fn items(&self) -> (iter: DocumentIter)
        ensures
            iter.snapshot() == self@,
            iter.consumed() == 0,
    {
        self.__iter__()
    }

    /// The values in insertion order, each in the host's form, as a snapshot.
    pub fn values(&self) -> (result: Result<Vec<DynamicObject>, DriverError>)
        ensures
            match result {
                Ok(objects) => encode_all(values_of(self@)) == Ok::<Seq<ObjectView>, ErrorView>(
                    crate::object::objects_view(objects@),
                ),
                Err(error) => encode_all(values_of(self@)) == Err::<Seq<ObjectView>, ErrorView>(
                    error@,
                ),
            },
    {
        let ghost values = values_of(self@);
        let n = self.len();
        let mut objects: Vec<DynamicObject> = Vec::with_capacity(n);
        let mut i: usize = 0;
        assert(values.subrange(0, 0) =~= Seq::<ValueView>::empty());
        assert(crate::object::objects_view(objects@) =~= Seq::<ObjectView>::empty());
        while i < n
            invariant
                i <= n,
                n == self@.len(),
                values == values_of(self@),
                encode_all(values.subrange(0, i as int)) == Ok::<Seq<ObjectView>, ErrorView>(
                    crate::object::objects_view(objects@),
                ),
            decreases n - i,
        {
            proof {
                lemma_encode_all_step(values, i as int);
            }
            match encode(self.entry(i).1) {
                Ok(object) => {
                    let ghost before = crate::object::objects_view(objects@);
                    objects.push(object);
                    assert(crate::object::objects_view(objects@) =~= before.push(object@));
                },
                Err(error) => {
                    proof {
                        lemma_encode_all_prefix_error(values, i as int + 1);
                    }
                    return Err(error);
                },
            }
            i += 1;
        }
        assert(values.subrange(0, i as int) =~= values);
        Ok(objects)
    }
}

/// A single pass over a snapshot of a document's entries, in insertion
/// order. Each entry is shown to the host when it is handed out. The pass
/// does not restart: once every entry has been handed out, each further
/// step signals the end.
#[derive(Debug, PartialEq)]
pub struct DocumentIter {
    index: usize,
    len: usize,
    document_items: Document,
}

/// What a step of a pass gives: the entry at the position, with the host's
/// form of its value, or the failure of a value that has no form, or
/// nothing at the end.
pub open spec fn next_spec(snapshot: DocumentView, consumed: nat) -> Result<
    Option<(Seq<char>, ObjectView)>,
    ErrorView,
> {
    if consumed < snapshot.len() {
        match encode_spec(snapshot[consumed as int].1) {
            Ok(object) => Ok(Some((snapshot[consumed as int].0, object))),
            Err(error) => Err(error),
        }
    } else {
        Ok(None)
    }
}

/// The view of what a step of a pass gives.
pub open spec fn step_view(result: Result<Option<(String, DynamicObject)>, DriverError>) -> Result<
    Option<(Seq<char>, ObjectView)>,
    ErrorView,
> {
    match result {
        Ok(Some(entry)) => Ok(Some((entry.0@, entry.1@))),
        Ok(None) => Ok(None),
        Err(error) => Err(error@),
    }
}

impl DocumentIter {
    #[verifier::type_invariant]
    spec fn inv(&self) -> bool {
        self.index <= self.len && self.len == self.document_items@.len()
    }

    /// The entries that the pass is made over.
    pub closed spec fn snapshot(&self) -> DocumentView {
        self.document_items@
    }

    /// How many entries have been handed out.
    pub closed spec fn consumed(&self) -> nat {
        self.index as nat
    }

    /// How many entries have been handed out.
    pub fn yielded(&self) -> (n: usize)
        ensures
            n == self.consumed(),
            n <= self.snapshot().len(),
    {
        proof {
            use_type_invariant(self);
        }
        self.index
    }

    /// The number of entries in the snapshot.
    pub fn __len__(&self) -> (n: usize)
        ensures
            n == self.snapshot().len(),
            self.consumed() <= n,
    {
        proof {
            use_type_invariant(self);
        }
        self.len
    }

    /// Hands out the next entry, or signals the end. The snapshot stays as
    /// it is and the pass never goes back. An entry whose value has no form
    /// on the host's side is a failure, and the pass stays where it was.
    pub fn __next__(&mut self) -> (next: Result<Option<(String, DynamicObject)>, DriverError>)
        ensures
            final(self).snapshot() == old(self).snapshot(),
            step_view(next) == next_spec(old(self).snapshot(), old(self).consumed()),
            final(self).consumed() == if next is Ok && next->Ok_0 is Some {
                old(self).consumed() + 1
            } else {
                old(self).consumed()
            },
    {
        proof {
            use_type_invariant(&*self);
        }
        if self.index == self.len {
            Ok(None)
        } else {
            let entry = self.document_items.entry(self.index);
            match encode(entry.1) {
                Ok(object) => {
                    let key = entry.0.clone();
                    self.index = self.index + 1;
                    Ok(Some((key, object)))
                },
                Err(error) => Err(error),
            }
        }
    }
}

} // verus!
