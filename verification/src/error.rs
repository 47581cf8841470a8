use vstd::prelude::*;
use vstd::string::*;

verus! {

/// The mathematical content of a [`DriverError`].
pub enum ErrorView {
    InvalidKeyType,
    KeyNotFound(Seq<char>),
    UnsupportedValueKind,
    UnsupportedRuntimeType(Seq<char>),
    NoCurrentRecord,
    RemoteOperationFailed(Seq<char>),
}

/// The failures that the driver core reports. None is retried internally.
#[derive(Clone, Debug, PartialEq)]
pub enum DriverError {
    /// A key that is not text was used where a document key is required.
    InvalidKeyType,
    /// A subscript access or a deletion named a key that is absent.
    KeyNotFound(String),
    /// A value of a kind that has no form on the host's side was met.
    UnsupportedValueKind,
    /// A host object of a runtime type that no value kind stands for.
    UnsupportedRuntimeType(String),
    /// The current record was asked for before an advance or after the end.
    NoCurrentRecord,
    /// The store or the underlying driver reported a failure, in its words.
    RemoteOperationFailed(String),
}

impl View for DriverError {
    type V = ErrorView;

    open spec fn view(&self) -> ErrorView {
        match self {
            DriverError::InvalidKeyType => ErrorView::InvalidKeyType,
            DriverError::KeyNotFound(key) => ErrorView::KeyNotFound(key@),
            DriverError::UnsupportedValueKind => ErrorView::UnsupportedValueKind,
            DriverError::UnsupportedRuntimeType(name) => ErrorView::UnsupportedRuntimeType(name@),
            DriverError::NoCurrentRecord => ErrorView::NoCurrentRecord,
            DriverError::RemoteOperationFailed(text) => ErrorView::RemoteOperationFailed(text@),
        }
    }
}

/// The view of a result: the view of what it holds on either side.
pub open spec fn result_view<T: View, E: View>(r: Result<T, E>) -> Result<T::V, E::V> {
    match r {
        Ok(value) => Ok(value@),
        Err(error) => Err(error@),
    }
}

/// The text that a failure shows to the user.
pub open spec fn message_of(error: ErrorView) -> Seq<char> {
    match error {
        ErrorView::InvalidKeyType => "Document keys must be strings"@,
        ErrorView::KeyNotFound(key) => "Key not found: '"@ + key + "'"@,
        ErrorView::UnsupportedValueKind => "'DBPointer' type is not supported!"@,
        ErrorView::UnsupportedRuntimeType(name) => "Type "@ + name + " is not convertible to BSON"@,
        ErrorView::NoCurrentRecord => "The cursor has no current record"@,
        ErrorView::RemoteOperationFailed(text) => text,
    }
}

impl DriverError {
    /// The text that this failure shows to the user: it names the offending
    /// key or runtime type, or repeats the words of the store.
    pub fn message(&self) -> (text: String)
        ensures
            text@ == message_of(self@),
    {
        match self {
            DriverError::InvalidKeyType => "Document keys must be strings".to_owned(),
            DriverError::KeyNotFound(key) => {
                let mut text = "Key not found: '".to_owned();
                text.append(key.as_str());
                text.append("'");
                text
            },
            DriverError::UnsupportedValueKind => "'DBPointer' type is not supported!".to_owned(),
            DriverError::UnsupportedRuntimeType(name) => {
                let mut text = "Type ".to_owned();
                text.append(name.as_str());
                text.append(" is not convertible to BSON");
                text
            },
            DriverError::NoCurrentRecord => "The cursor has no current record".to_owned(),
            DriverError::RemoteOperationFailed(text) => text.clone(),
        }
    }
}

} // verus!
