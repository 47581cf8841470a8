use crate::error::{DriverError, ErrorView};
use crate::index::IndexModel;
use crate::value::Document;
use vstd::prelude::*;

verus! {

/// Whether a cursor works inside a session that it shares with others.
#[derive(Clone, Copy, Debug, PartialEq, Eq, Structural)]
pub enum CursorType {
    /// Bound to a session: every round-trip holds the session exclusively.
    Session,
    /// Bound to none: it proceeds independently of every other operation.
    Plain,
}

/// Where a cursor stands in its life.
#[derive(Clone, Copy, Debug, PartialEq, Eq, Structural)]
pub enum CursorState {
    /// Records may be buffered, and more may be fetched.
    Open,
    /// A fetch is outstanding.
    Advancing,
    /// The stream has ended. This state is never left.
    Exhausted,
}

/// What the caller of `advance` has to do next.
#[derive(Clone, Copy, Debug, PartialEq, Eq, Structural)]
pub enum AdvanceStep {
    /// The advance is over, without a round-trip: `true` with a record to
    /// read, `false` at the end of the stream.
    Ready(bool),
    /// The next batch must be fetched from the store and handed to
    /// `complete_advance`. With `hold_session` the round-trip runs while the
    /// cursor's session is held exclusively.
    Fetch { hold_session: bool },
    /// A fetch of this cursor is outstanding already: its end must be awaited.
    Busy,
}

/// The mathematical content of a [`ResultIterator`].
pub struct CursorView<T> {
    pub cursor: CursorType,
    pub state: CursorState,
    /// The page that is buffered, in the order of the stream.
    pub page: Seq<T>,
    /// How many records of the page have been consumed. The last of them is
    /// the current record.
    pub consumed: nat,
}

impl<T> CursorView<T> {
    /// A cursor as it is created: open, with nothing buffered.
    pub open spec fn start(cursor: CursorType) -> CursorView<T> {
        CursorView { cursor, state: CursorState::Open, page: Seq::empty(), consumed: 0 }
    }

    /// What holds of every cursor that the library hands out.
    pub open spec fn well_formed(self) -> bool {
        &&& self.consumed <= self.page.len()
        &&& self.state == CursorState::Exhausted ==> self.page.len() == 0
    }

    /// Whether there is a record to read.
    pub open spec fn has_current(self) -> bool {
        1 <= self.consumed <= self.page.len()
    }

    /// The record to read, where there is one.
    pub open spec fn current(self) -> T {
        self.page[self.consumed - 1]
    }

    /// What `advance` asks of its caller.
    pub open spec fn step(self) -> AdvanceStep {
        match self.state {
            CursorState::Exhausted => AdvanceStep::Ready(false),
            CursorState::Advancing => AdvanceStep::Busy,
            CursorState::Open => if self.consumed < self.page.len() {
                AdvanceStep::Ready(true)
            } else {
                AdvanceStep::Fetch { hold_session: self.cursor == CursorType::Session }
            },
        }
    }

    /// The cursor after `advance`: one more buffered record is consumed, or
    /// a fetch is outstanding, or nothing has changed.
    pub open spec fn advanced(self) -> CursorView<T> {
        match self.step() {
            AdvanceStep::Ready(true) => CursorView { consumed: self.consumed + 1, ..self },
            AdvanceStep::Fetch { .. } => CursorView {
                state: CursorState::Advancing,
                ..self
            },
            _ => self,
        }
    }

    /// The cursor after a fetch has brought a batch: an empty one ends the
    /// stream, another one becomes the page, with its first record current.
    pub open spec fn refilled(self, batch: Seq<T>) -> CursorView<T> {
        if batch.len() == 0 {
            CursorView { state: CursorState::Exhausted, page: Seq::empty(), consumed: 0, ..self }
        } else {
            CursorView { state: CursorState::Open, page: batch, consumed: 1, ..self }
        }
    }

    /// The cursor after a fetch has failed: open again, with what it had.
    pub open spec fn failed(self) -> CursorView<T> {
        CursorView { state: CursorState::Open, ..self }
    }
}

/// A paged stream of records from the store, read in two steps: `advance`
/// moves to the next record and is the only step that changes anything;
/// `deserialize_current` reads the record at the current position as often
/// as the caller likes.
///
/// The cursor holds the page and the position. The round-trips are the
/// caller's: `advance` says when one is due, and `complete_advance` takes
/// what it brought.
#[derive(Debug, PartialEq)]
pub struct ResultIterator<T> {
    cursor: CursorType,
    state: CursorState,
    buffer: Vec<T>,
    position: usize,
}

impl<T> View for ResultIterator<T> {
    type V = CursorView<T>;

    closed spec fn view(&self) -> CursorView<T> {
        CursorView {
            cursor: self.cursor,
            state: self.state,
            page: self.buffer@,
            consumed: self.position as nat,
        }
    }
}

impl<T> ResultIterator<T> {
    #[verifier::type_invariant]
    spec fn inv(&self) -> bool {
        self@.well_formed()
    }

    /// A cursor over a stream that has not been read yet.
    pub fn new(cursor: CursorType) -> (iterator: ResultIterator<T>)
        ensures
            iterator@ == CursorView::<T>::start(cursor),
    {
        ResultIterator { cursor, state: CursorState::Open, buffer: Vec::new(), position: 0 }
    }

    /// The state of the cursor.
    pub fn state(&self) -> (state: CursorState)
        ensures
            state == self@.state,
            self@.well_formed(),
    {
        proof {
            use_type_invariant(self);
        }
        self.state
    }

    /// Whether the cursor is bound to a session.
    pub fn cursor_type(&self) -> (cursor: CursorType)
        ensures
            cursor == self@.cursor,
    {
        self.cursor
    }

    /// Moves to the next record.
    ///
    /// While the page holds unread records, one of them is consumed and no
    /// round-trip is made. When the page is used up, the cursor asks for a
    /// fetch and waits for `complete_advance`; for a cursor bound to a
    /// session the fetch must hold that session. At the end of the stream
    /// the answer is `false`, every time.
    pub fn advance(&mut self) -> (step: AdvanceStep)
        ensures
            step == old(self)@.step(),
            final(self)@ == old(self)@.advanced(),
    {
        proof {
            use_type_invariant(&*self);
        }
        match self.state {
            CursorState::Exhausted => AdvanceStep::Ready(false),
            CursorState::Advancing => AdvanceStep::Busy,
            CursorState::Open => {
                if self.position < self.buffer.len() {
                    self.position = self.position + 1;
                    AdvanceStep::Ready(true)
                } else {
                    self.state = CursorState::Advancing;
                    match self.cursor {
                        CursorType::Session => AdvanceStep::Fetch { hold_session: true },
                        CursorType::Plain => AdvanceStep::Fetch { hold_session: false },
                    }
                }
            },
        }
    }

    /// Ends the advance for which a fetch was asked, with what the fetch
    /// brought: a batch of records, or the words in which the store or the
    /// underlying driver reported its failure.
    ///
    /// An empty batch ends the stream and the answer is `false`. Another
    /// batch becomes the page, its first record is current, and the answer
    /// is `true`. A failure is handed on as `RemoteOperationFailed` with the
    /// same words, and the cursor is open again with the page it had.
    pub fn complete_advance(&mut self, outcome: Result<Vec<T>, String>) -> (result: Result<
        bool,
        DriverError,
    >)
        requires
            old(self)@.state == CursorState::Advancing,
        ensures
            match outcome {
                Ok(batch) => final(self)@ == old(self)@.refilled(batch@) && result == Ok::<
                    bool,
                    DriverError,
                >(batch@.len() > 0),
                Err(text) => final(self)@ == old(self)@.failed() && result is Err
                    && result->Err_0@ == ErrorView::RemoteOperationFailed(text@),
            },
    {
        proof {
            use_type_invariant(&*self);
        }
        match outcome {
            Ok(batch) => {
                if batch.len() == 0 {
                    self.position = 0;
                    self.buffer = Vec::new();
                    self.state = CursorState::Exhausted;
                    Ok(false)
                } else {
                    self.position = 0;
                    self.buffer = batch;
                    self.position = 1;
                    self.state = CursorState::Open;
                    Ok(true)
                }
            },
            Err(text) => {
                self.state = CursorState::Open;
                Err(DriverError::RemoteOperationFailed(text))
            },
        }
    }

    /// Reads the record at the current position. Nothing changes, so that
    /// the same record can be read again. Before the first successful
    /// advance and after the end of the stream there is no such record, and
    /// the read fails with `NoCurrentRecord`.
    pub fn deserialize_current(&self) -> (result: Result<&T, DriverError>)
        ensures
            match result {
                Ok(record) => self@.has_current() && *record == self@.current(),
                Err(error) => !self@.has_current() && error == DriverError::NoCurrentRecord,
            },
    {
        proof {
            use_type_invariant(self);
        }
        if 1 <= self.position && self.position <= self.buffer.len() {
            Ok(&self.buffer[self.position - 1])
        } else {
            Err(DriverError::NoCurrentRecord)
        }
    }
}

/// A cursor over documents, as a query or an aggregation returns it.
#[derive(Debug, PartialEq)]
pub struct DocumentResultIterator(pub ResultIterator<Document>);

/// A cursor over index descriptions, as a listing of indexes returns it.
#[derive(Debug, PartialEq)]
pub struct IndexResultIterator(pub ResultIterator<IndexModel>);

/// Moves a cursor over documents to its next record.
pub fn document_advance(iterator: &mut DocumentResultIterator) -> (step: AdvanceStep)
    ensures
        step == old(iterator).0@.step(),
        final(iterator).0@ == old(iterator).0@.advanced(),
{
    iterator.0.advance()
}

/// Reads the current record of a cursor over documents, as a copy that
/// shares nothing with the cursor.
pub fn document_current(iterator: &DocumentResultIterator) -> (result: Result<
    Document,
    DriverError,
>)
    ensures
        match result {
            Ok(document) => iterator.0@.has_current() && document@ == iterator.0@.current()@,
            Err(error) => !iterator.0@.has_current() && error == DriverError::NoCurrentRecord,
        },
{
    match iterator.0.deserialize_current() {
        Ok(document) => Ok(document.copy()),
        Err(error) => Err(error),
    }
}

/// Moves a cursor over index descriptions to its next record.
pub fn index_advance(iterator: &mut IndexResultIterator) -> (step: AdvanceStep)
    ensures
        step == old(iterator).0@.step(),
        final(iterator).0@ == old(iterator).0@.advanced(),
{
    iterator.0.advance()
}

/// Reads the current record of a cursor over index descriptions, as a copy:
/// the key specification and, where the index has them, its options, of
/// which each one that is unset stays unset.
pub fn index_current(iterator: &IndexResultIterator) -> (result: Result<IndexModel, DriverError>)
    ensures
        match result {
            Ok(model) => iterator.0@.has_current() && model@ == iterator.0@.current()@,
            Err(error) => !iterator.0@.has_current() && error == DriverError::NoCurrentRecord,
        },
{
    match iterator.0.deserialize_current() {
        Ok(model) => Ok(model.copy()),
        Err(error) => Err(error),
    }
}

/// A cursor over nothing: the first advance asks for a fetch, the fetch
/// brings no record, the stream is at its end, and there is no record to
/// read, then and ever after.
pub proof fn lemma_empty_stream_is_exhausted<T>(cursor: CursorType)
    ensures
        ({
            let created = CursorView::<T>::start(cursor);
            let ended = created.advanced().refilled(Seq::empty());
            &&& created.step() is Fetch
            &&& !created.has_current()
            &&& ended.state == CursorState::Exhausted
            &&& !ended.has_current()
            &&& ended.step() == AdvanceStep::Ready(false)
            &&& ended.advanced() == ended
        }),
{
}

/// Every step keeps a cursor well-formed.
pub proof fn lemma_steps_keep_well_formed<T>(cursor: CursorView<T>, batch: Seq<T>)
    requires
        cursor.well_formed(),
    ensures
        cursor.advanced().well_formed(),
        cursor.refilled(batch).well_formed(),
        cursor.state != CursorState::Exhausted ==> cursor.failed().well_formed(),
{
}

/// The end of the stream is final: no advance leaves it, and it has nothing
/// to read.
pub proof fn lemma_exhausted_is_terminal<T>(cursor: CursorView<T>)
    requires
        cursor.well_formed(),
        cursor.state == CursorState::Exhausted,
    ensures
        cursor.step() == AdvanceStep::Ready(false),
        cursor.advanced() == cursor,
        !cursor.has_current(),
{
}

/// The session is held for a fetch exactly by the cursors bound to one, and
/// no round-trip is made while the page holds unread records.
pub proof fn lemma_fetch_discipline<T>(cursor: CursorView<T>)
    requires
        cursor.well_formed(),
    ensures
        cursor.step() is Fetch ==> cursor.state == CursorState::Open && cursor.consumed
            == cursor.page.len() && cursor.step()->hold_session == (cursor.cursor
            == CursorType::Session),
        cursor.state == CursorState::Open && cursor.consumed < cursor.page.len() ==> cursor.step()
            == AdvanceStep::Ready(true) && cursor.advanced().current()
            == cursor.page[cursor.consumed as int],
{
}

} // verus!
