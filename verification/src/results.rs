use crate::convert::{encode, encode_all, encode_spec, encode_values};
use crate::error::{DriverError, ErrorView};
use crate::object::{objects_view, DynamicObject, ObjectView};
use crate::value::{values_view, Value};
use vstd::prelude::*;

verus! {

/// The time limit, in seconds, of an operation that is given none.
pub const DEFAULT_TIMEOUT: u64 = 5;

/// The time limit of an operation, in seconds: the one given, or the default.
pub fn timeout_or_default(timeout: Option<u64>) -> (seconds: u64)
    ensures
        seconds == match timeout {
            Some(given) => given,
            None => DEFAULT_TIMEOUT,
        },
{
    match timeout {
        Some(given) => given,
        None => DEFAULT_TIMEOUT,
    }
}

/// The outcome of an insertion of one document.
#[derive(Clone, Debug, PartialEq)]
pub struct InsertOneResult {
    pub inserted_id: DynamicObject,
}

/// The outcome of an insertion of several documents.
#[derive(Clone, Debug, PartialEq)]
pub struct InsertManyResult {
    pub inserted_ids: Vec<DynamicObject>,
}

/// The outcome of an update.
#[derive(Clone, Debug, PartialEq)]
pub struct UpdateResult {
    pub matched_count: u64,
    pub modified_count: u64,
    pub upserted_id: Option<DynamicObject>,
}

/// The outcome of a deletion.
#[derive(Clone, Copy, Debug, PartialEq, Eq)]
pub struct DeleteResult {
    pub deleted_count: u64,
}

/// The outcome of a creation of indexes.
#[derive(Clone, Debug, PartialEq)]
pub struct CreateIndexesResult {
    pub index_names: Vec<String>,
}

impl InsertOneResult {
    /// The outcome that the host sees, from the identifier that the store
    /// reported. An identifier without a form on the host's side fails.
    pub fn new(inserted_id: &Value) -> (result: Result<InsertOneResult, DriverError>)
        ensures
            match result {
                Ok(outcome) => encode_spec(inserted_id@) == Ok::<ObjectView, ErrorView>(
                    outcome.inserted_id@,
                ),
                Err(error) => encode_spec(inserted_id@) == Err::<ObjectView, ErrorView>(error@),
            },
    {
        match encode(inserted_id) {
            Ok(inserted_id) => Ok(InsertOneResult { inserted_id }),
            Err(error) => Err(error),
        }
    }
}

impl InsertManyResult {
    /// The outcome that the host sees, from the identifiers that the store
    /// reported, in their order. One identifier without a form on the host's
    /// side fails the whole.
    pub fn new(inserted_ids: &Vec<Value>) -> (result: Result<InsertManyResult, DriverError>)
        ensures
            match result {
                Ok(outcome) => encode_all(values_view(inserted_ids@)) == Ok::<
                    Seq<ObjectView>,
                    ErrorView,
                >(objects_view(outcome.inserted_ids@)),
                Err(error) => encode_all(values_view(inserted_ids@)) == Err::<
                    Seq<ObjectView>,
                    ErrorView,
                >(error@),
            },
    {
        match encode_values(inserted_ids) {
            Ok(objects) => Ok(InsertManyResult { inserted_ids: objects }),
            Err(error) => Err(error),
        }
    }
}

impl UpdateResult {
    /// The outcome that the host sees, from the counts and the identifier
    /// that the store reported. Where nothing was inserted the identifier
    /// stays unset; one without a form on the host's side fails.
    pub fn new(matched_count: u64, modified_count: u64, upserted_id: Option<&Value>) -> (result:
        Result<UpdateResult, DriverError>)
        ensures
            match upserted_id {
                None => result is Ok && result->Ok_0.upserted_id is None,
                Some(id) => match result {
                    Ok(outcome) => outcome.upserted_id is Some && encode_spec(id@) == Ok::<
                        ObjectView,
                        ErrorView,
                    >(outcome.upserted_id->0@),
                    Err(error) => encode_spec(id@) == Err::<ObjectView, ErrorView>(error@),
                },
            },
            result is Ok ==> result->Ok_0.matched_count == matched_count
                && result->Ok_0.modified_count == modified_count,
    {
        match upserted_id {
            None => Ok(UpdateResult { matched_count, modified_count, upserted_id: None }),
            Some(id) => match encode(id) {
                Ok(object) => Ok(
                    UpdateResult { matched_count, modified_count, upserted_id: Some(object) },
                ),
                Err(error) => Err(error),
            },
        }
    }
}

/// Reports a failure of the store or of the underlying driver, in its words.
pub fn remote_failure(text: String) -> (error: DriverError)
    ensures
        error@ == ErrorView::RemoteOperationFailed(text@),
{
    DriverError::RemoteOperationFailed(text)
}

} // verus!
